use c_str::order::compare;
use c_str::{
    buf_dup, contains_nul, from_c_multistring, str_dup, strlen, valid_c_run, valid_c_run_of_len,
    valid_multistring, BorrowedCString, CStrBuf, CString, Dtor, Release, ToCStr, BUF_LEN, NUL,
};
use std::cmp::Ordering;

fn run(bytes: &[u8]) -> Vec<u8> {
    bytes.to_vec()
}

fn segments(buf: usize, mem: &[u8], count: Option<usize>) -> (usize, Vec<(usize, Vec<u8>)>) {
    let mut seen = Vec::new();
    let visited = from_c_multistring(buf, mem, count, |c| {
        seen.push((c.as_ptr(), c.as_bytes_no_nul().to_vec()));
    });
    (visited, seen)
}

#[test]
fn terminator_is_zero() {
    assert_eq!(NUL, 0u8);
}

#[test]
fn strlen_counts_bytes_before_first_terminator() {
    assert_eq!(strlen(b"\0"), 0);
    assert_eq!(strlen(b"a\0"), 1);
    assert_eq!(strlen(b"hello\0"), 5);
    assert_eq!(strlen(b"he\0llo\0"), 2);
    assert_eq!(strlen(b"\0\0\0"), 0);
    assert_eq!(strlen(b"ab\0cd"), 2);
}

#[test]
fn contains_nul_finds_a_terminator_anywhere() {
    assert!(!contains_nul(b""));
    assert!(!contains_nul(b"hello"));
    assert!(contains_nul(b"\0"));
    assert!(contains_nul(b"\0hello"));
    assert!(contains_nul(b"hel\0lo"));
    assert!(contains_nul(b"hello\0"));
    assert!(!contains_nul(b"\xFF\x01"));
}

#[test]
fn round_trip_gives_the_bytes_back() {
    let inputs: [&[u8]; 5] = [b"", b"a", b"hello", b"foo\xFF", b"\x01\x02\x03\xFE"];
    for v in inputs.iter() {
        let c_str = v.to_c_str();
        assert_eq!(c_str.as_bytes_no_nul(), *v);
        let mut with_nul = v.to_vec();
        with_nul.push(0);
        assert_eq!(c_str.as_bytes(), &with_nul[..]);
        assert_eq!(c_str.len(), v.len());
        assert_eq!(c_str.is_empty(), v.is_empty());
    }
}

#[test]
fn round_trip_of_a_long_source() {
    let v: Vec<u8> = (0..1000u32).map(|i| (i % 255) as u8 + 1).collect();
    let c_str = v.to_c_str();
    assert_eq!(c_str.as_bytes_no_nul(), &v[..]);
    assert_eq!(c_str.len(), 1000);
    assert_eq!(c_str.as_bytes()[1000], 0);
    assert_eq!(c_str.as_bytes().len(), 1001);
}

#[test]
fn round_trip_of_text_and_owned_text() {
    let c_str = "h\u{e9}llo".to_c_str();
    assert_eq!(c_str.as_bytes_no_nul(), "h\u{e9}llo".as_bytes());
    assert_eq!(c_str.as_str(), Some("h\u{e9}llo"));
    let owned = String::from("world");
    let c_str = owned.to_c_str();
    assert_eq!(c_str.as_bytes(), b"world\0");
    let by_ref = (&owned).to_c_str();
    assert_eq!(by_ref.as_bytes(), b"world\0");
    let unchecked = owned.to_c_str_unchecked();
    assert_eq!(unchecked.as_bytes(), b"world\0");
}

#[test]
fn unchecked_conversion_keeps_the_length_and_scans_short() {
    let c_string = "he\x00llo".to_c_str_unchecked();
    assert_eq!(c_string.len(), 6);
    assert_eq!(c_string.as_bytes(), b"he\0llo\0");
    assert_eq!(strlen(c_string.as_bytes()), 2);
    let mut iter = c_string.iter();
    assert_eq!(iter.next(), Some(b'h'));
    assert_eq!(iter.next(), Some(b'e'));
    assert_eq!(iter.next(), None);
    assert_eq!(iter.next(), None);
    let (ptr, mem) = c_string.unwrap();
    let again = CStrBuf::new_unowned(ptr, mem).into_c_str();
    assert_eq!(again.len(), 2);
    assert_eq!(again.as_bytes(), b"he\0");
}

#[test]
fn declared_length_is_followed_by_a_terminator() {
    assert!(valid_c_run_of_len(8, b"hello\0", 5));
    let c_str = CString::new_unowned(8, run(b"hello\0"), 5);
    assert_eq!(c_str.len(), 5);
    assert_eq!(c_str.as_bytes()[5], 0);
    assert_eq!(c_str.as_bytes(), b"hello\0");
    assert_eq!(c_str.as_bytes_no_nul(), b"hello");
    assert_eq!(c_str.as_ptr(), 8);
    assert!(!c_str.owns_buffer());

    assert!(valid_c_run_of_len(8, b"he\0llo\0", 2));
    assert!(valid_c_run_of_len(8, b"he\0llo\0", 6));
    let c_str = CString::new_unowned(8, run(b"he\0llo\0"), 6);
    assert_eq!(c_str.as_bytes(), b"he\0llo\0");
}

#[test]
fn wrong_declared_length_is_refused() {
    assert!(!valid_c_run_of_len(8, b"hello\0", 4));
    assert!(!valid_c_run_of_len(8, b"hello\0", 6));
    assert!(!valid_c_run_of_len(8, b"hello\0", 0));
    assert!(!valid_c_run_of_len(8, b"hello", 5));
    assert!(!valid_c_run_of_len(8, b"", 0));
    assert!(valid_c_run_of_len(8, b"\0", 0));
}

#[test]
fn null_address_is_refused_by_every_adoption() {
    assert!(!valid_c_run(0, b"hello\0"));
    assert!(valid_c_run(1, b"hello\0"));
    assert!(!valid_c_run_of_len(0, b"hello\0", 5));
    assert!(valid_c_run_of_len(1, b"hello\0", 5));
}

#[test]
fn run_without_terminator_or_past_the_address_space_is_refused() {
    assert!(!valid_c_run(8, b"hello"));
    assert!(!valid_c_run(8, b""));
    assert!(valid_c_run(usize::MAX - 6, b"hello\0"));
    assert!(!valid_c_run(usize::MAX - 5, b"hello\0"));
    assert!(valid_c_run_of_len(usize::MAX - 6, b"hello\0", 5));
    assert!(!valid_c_run_of_len(usize::MAX - 5, b"hello\0", 5));
}

#[test]
fn promotion_keeps_address_bytes_and_release() {
    let buf = CStrBuf::new_with_dtor(64, run(b"zero\0one\0\0"), Dtor::Custom(3));
    assert_eq!(buf.to_vec(), b"zero".to_vec());
    let mut c_str = buf.into_c_str();
    assert_eq!(c_str.as_ptr(), 64);
    assert_eq!(c_str.len(), 4);
    assert_eq!(c_str.as_bytes(), b"zero\0");
    assert!(c_str.owns_buffer());
    assert_eq!(c_str.release(), Some(Release { dtor: Dtor::Custom(3), ptr: 64 }));
    let (ptr, mem) = c_str.unwrap();
    assert_eq!(ptr, 64);
    assert_eq!(mem, b"zero\0one\0\0".to_vec());
}

#[test]
fn release_comes_due_once() {
    let mut buf = CStrBuf::new_libc(40, run(b"abc\0"));
    assert!(buf.owns_buffer());
    assert_eq!(buf.release(), Some(Release { dtor: Dtor::Free, ptr: 40 }));
    assert!(!buf.owns_buffer());
    assert_eq!(buf.release(), None);
    assert_eq!(buf.release(), None);
    assert_eq!(buf.as_ptr(), 40);
    assert_eq!(buf.to_vec(), b"abc".to_vec());

    let mut buf = CStrBuf::new_with_dtor(48, run(b"abc\0"), Dtor::Custom(9));
    assert_eq!(buf.release(), Some(Release { dtor: Dtor::Custom(9), ptr: 48 }));
    assert_eq!(buf.release(), None);
}

#[test]
fn unowned_buffer_owes_nothing() {
    let mut buf = CStrBuf::new_unowned(40, run(b"abc\0"));
    assert!(!buf.owns_buffer());
    assert_eq!(buf.release(), None);
    let mut c_str = CString::new_unowned(40, run(b"abc\0"), 3);
    assert!(!c_str.owns_buffer());
    assert_eq!(c_str.release(), None);
}

#[test]
fn owned_string_release_comes_due_once() {
    let mut c_str = CString::new_libc(40, run(b"abc\0"), 3);
    assert!(c_str.owns_buffer());
    assert_eq!(c_str.release(), Some(Release { dtor: Dtor::Free, ptr: 40 }));
    assert_eq!(c_str.release(), None);
    assert_eq!(c_str.as_bytes(), b"abc\0");
    let mut c_str = CString::new_with_dtor(56, run(b"abc\0"), 3, Dtor::Custom(1));
    assert_eq!(c_str.release(), Some(Release { dtor: Dtor::Custom(1), ptr: 56 }));
    assert_eq!(c_str.release(), None);
}

#[test]
fn unwrap_hands_out_address_and_bytes() {
    let buf = CStrBuf::new_libc(40, run(b"abc\0"));
    let (ptr, mem) = buf.unwrap();
    assert_eq!(ptr, 40);
    assert_eq!(mem, b"abc\0".to_vec());
}

#[test]
fn converted_string_lives_where_its_bytes_are() {
    let c_str = b"hello".to_c_str();
    assert!(c_str.as_ptr() != 0);
    assert_eq!(c_str.as_ptr(), c_str.as_bytes().as_ptr() as usize);
    assert!(c_str.owns_buffer());
    let buf = buf_dup(b"hello");
    assert!(buf.as_ptr() != 0);
    assert!(buf.owns_buffer());
    assert_eq!(buf.as_ptr(), buf.borrow_with_len().as_bytes().as_ptr() as usize);
    let other = b"hello".to_c_str();
    assert!(other.as_ptr() != c_str.as_ptr());
}

#[test]
fn duplicates_end_in_one_terminator() {
    let buf = buf_dup(b"he\0llo");
    assert_eq!(buf.to_vec(), b"he".to_vec());
    let (_, mem) = buf.unwrap();
    assert_eq!(mem, b"he\0llo\0".to_vec());
    let c_str = str_dup(b"he\0llo");
    assert_eq!(c_str.len(), 6);
    assert_eq!(c_str.as_bytes(), b"he\0llo\0");
    let c_str = str_dup(b"");
    assert_eq!(c_str.len(), 0);
    assert_eq!(c_str.as_bytes(), b"\0");
}

#[test]
fn buffer_is_empty_at_a_leading_terminator() {
    assert!(buf_dup(b"").is_empty());
    assert!(!buf_dup(b"a").is_empty());
    assert!(buf_dup(b"\0a").is_empty());
    assert!(buf_dup(b"").borrow_with_len().is_empty());
    assert!(!buf_dup(b"a").borrow_with_len().is_empty());
    assert!("".to_c_str().is_empty());
    assert!(!"a".to_c_str().is_empty());
}

#[test]
fn borrowed_view_has_address_and_length_of_its_owner() {
    let c_str = CString::new_unowned(72, run(b"hello\0"), 5);
    let view = c_str.borrow();
    assert_eq!(view.as_ptr(), 72);
    assert_eq!(view.len(), 5);
    assert_eq!(view.as_bytes(), b"hello\0");
    assert_eq!(view.as_bytes_no_nul(), b"hello");
    assert_eq!(view.as_str(), Some("hello"));
    let dup = view.to_c_str();
    assert_eq!(dup.as_bytes(), b"hello\0");
    assert!(dup.as_ptr() != 72);
}

#[test]
fn wrap_scans_for_the_length() {
    let mem = b"zero\0one\0\0";
    assert!(valid_c_run(16, mem));
    let view = BorrowedCString::wrap(16, mem);
    assert_eq!(view.as_ptr(), 16);
    assert_eq!(view.len(), 4);
    assert_eq!(view.as_bytes(), b"zero\0");
    let view = BorrowedCString::wrap(16, b"\0");
    assert_eq!(view.len(), 0);
    assert!(view.is_empty());
    assert_eq!(view.as_bytes(), b"\0");
}

#[test]
fn cursor_moves_one_address_per_byte_and_stops_at_the_terminator() {
    let buf = CStrBuf::new_unowned(100, run(b"ab\0cd\0"));
    let mut iter = buf.iter();
    assert_eq!(iter.remaining_c_str().as_ptr(), 100);
    assert_eq!(iter.remaining_c_str().len(), 2);
    assert_eq!(iter.next(), Some(b'a'));
    assert_eq!(iter.remaining_c_str().as_ptr(), 101);
    assert_eq!(iter.remaining_c_str().as_bytes(), b"b\0");
    assert_eq!(iter.next(), Some(b'b'));
    assert_eq!(iter.remaining_c_str().as_ptr(), 102);
    assert_eq!(iter.remaining_c_str().len(), 0);
    assert_eq!(iter.next(), None);
    assert_eq!(iter.remaining_c_str().as_ptr(), 102);
    assert_eq!(iter.next(), None);
    assert_eq!(iter.remaining_c_str().as_ptr(), 102);
}

#[test]
fn cursor_hands_out_high_bytes() {
    let c_str = b"\xFF\x80".to_c_str();
    let mut iter = c_str.iter();
    assert_eq!(iter.next(), Some(0xFFu8));
    assert_eq!(iter.next(), Some(0x80u8));
    assert_eq!(iter.next(), None);
}

#[test]
fn text_is_had_only_from_valid_utf8() {
    assert_eq!(b"caf\xC3\xA9".to_c_str().as_str(), Some("caf\u{e9}"));
    assert_eq!(b"caf\xC3".to_c_str().as_str(), None);
    assert_eq!(b"\x80".to_c_str().as_str(), None);
    assert_eq!(buf_dup(b"caf\xC3\xA9").to_string(), Some(String::from("caf\u{e9}")));
    assert_eq!(buf_dup(b"caf\xC3").to_string(), None);
    assert_eq!(buf_dup(b"ok\0\xFF").to_string(), Some(String::from("ok")));
}

#[test]
fn scoped_access_is_the_same_below_and_above_the_threshold() {
    let short: Vec<u8> = vec![b'M', b'a', b'r', b'y'];
    let long: Vec<u8> = (0..200u32).map(|i| (i % 200) as u8 + 1).collect();
    for v in [&short, &long].iter() {
        let mut expected = (*v).clone();
        expected.push(0);
        let seen = v.as_slice().with_c_str(|run| run.to_vec());
        assert_eq!(seen, expected);
        let seen = v.as_slice().with_c_str_unchecked(|run| run.to_vec());
        assert_eq!(seen, expected);
        let (seen, len) = v.as_slice().with_c_str_len(|run, len| (run.to_vec(), len));
        assert_eq!(seen, expected);
        assert_eq!(len, v.len());
        let (seen, len) = v.as_slice().with_c_str_len_unchecked(|run, len| (run.to_vec(), len));
        assert_eq!(seen, expected);
        assert_eq!(len, v.len());
        let owned = v.as_slice().to_c_str();
        assert_eq!(owned.as_bytes(), &expected[..]);
    }
}

#[test]
fn scoped_access_at_the_threshold() {
    assert_eq!(BUF_LEN, 128);
    for n in [0usize, 1, 127, 128, 129, 130, 256].iter() {
        let v: Vec<u8> = (0..*n).map(|i| (i % 251) as u8 + 1).collect();
        let mut expected = v.clone();
        expected.push(0);
        let (seen, len) = v.as_slice().with_c_str_len(|run, len| (run.to_vec(), len));
        assert_eq!(seen, expected);
        assert_eq!(len, *n);
        assert_eq!(seen.len(), *n + 1);
    }
}

#[test]
fn scoped_access_unchecked_takes_an_embedded_terminator() {
    let (seen, len) = b"he\0llo".with_c_str_len_unchecked(|run, len| (run.to_vec(), len));
    assert_eq!(seen, b"he\0llo\0".to_vec());
    assert_eq!(len, 6);
    let long: Vec<u8> = (0..300u32).map(|i| (i % 3) as u8).collect();
    let (seen, len) = long.as_slice().with_c_str_len_unchecked(|run, len| (run.to_vec(), len));
    assert_eq!(len, 300);
    assert_eq!(&seen[..300], &long[..]);
    assert_eq!(seen[300], 0);
}

#[test]
fn scoped_access_on_text_and_buffers() {
    assert_eq!("PATH".with_c_str(|run| run.to_vec()), b"PATH\0".to_vec());
    assert_eq!("PATH".with_c_str_len(|run, len| (run.to_vec(), len)), (b"PATH\0".to_vec(), 4));
    assert_eq!("PATH".with_c_str_unchecked(|run| run.len()), 5);
    assert_eq!("PATH".with_c_str_len_unchecked(|_, len| len), 4);
    let owned = String::from("HOME");
    assert_eq!(owned.with_c_str(|run| run.to_vec()), b"HOME\0".to_vec());
    assert_eq!(owned.with_c_str_len(|run, len| (run.to_vec(), len)), (b"HOME\0".to_vec(), 4));
    assert_eq!((&owned).with_c_str(|run| run.to_vec()), b"HOME\0".to_vec());

    let buf = CStrBuf::new_unowned(24, run(b"ab\0cd\0"));
    assert_eq!(buf.with_c_str(|run| run.to_vec()), b"ab\0".to_vec());
    assert_eq!(buf.with_c_str_unchecked(|run| run.to_vec()), b"ab\0".to_vec());
    assert_eq!(buf.with_c_str_len(|run, len| (run.to_vec(), len)), (b"ab\0".to_vec(), 2));
    assert_eq!(buf.with_c_str_len_unchecked(|_, len| len), 2);
    assert_eq!(buf.to_c_str().as_bytes(), b"ab\0");
    assert_eq!(buf.to_c_str_unchecked().as_bytes(), b"ab\0");

    let c_str = buf.into_c_str();
    assert_eq!(c_str.with_c_str(|run| run.to_vec()), b"ab\0".to_vec());
    assert_eq!(c_str.with_c_str_len(|run, len| (run.to_vec(), len)), (b"ab\0".to_vec(), 2));
    assert_eq!(c_str.with_c_str_unchecked(|run| run.len()), 3);
    assert_eq!(c_str.with_c_str_len_unchecked(|_, len| len), 2);

    let view = c_str.borrow();
    assert_eq!(view.with_c_str(|run| run.to_vec()), b"ab\0".to_vec());
    assert_eq!(view.with_c_str_len(|run, len| (run.to_vec(), len)), (b"ab\0".to_vec(), 2));
    assert_eq!(view.with_c_str_unchecked(|run| run.len()), 3);
    assert_eq!(view.with_c_str_len_unchecked(|_, len| len), 2);
    assert_eq!(view.to_c_str_unchecked().as_bytes(), b"ab\0");
}

#[test]
fn multistring_walk_visits_each_segment_once() {
    let mem = b"zero\0one\0\0";
    let (visited, seen) = segments(1000, mem, None);
    assert_eq!(visited, 2);
    assert_eq!(seen, vec![(1000, b"zero".to_vec()), (1005, b"one".to_vec())]);
}

#[test]
fn multistring_walk_stops_at_the_count() {
    let mem = b"zero\0one\0two\0\0";
    assert_eq!(segments(1000, mem, Some(0)), (0, vec![]));
    assert_eq!(segments(1000, mem, Some(1)), (1, vec![(1000, b"zero".to_vec())]));
    assert_eq!(
        segments(1000, mem, Some(2)),
        (2, vec![(1000, b"zero".to_vec()), (1005, b"one".to_vec())])
    );
    let all = vec![(1000, b"zero".to_vec()), (1005, b"one".to_vec()), (1009, b"two".to_vec())];
    assert_eq!(segments(1000, mem, Some(3)), (3, all.clone()));
    assert_eq!(segments(1000, mem, Some(7)), (3, all.clone()));
    assert_eq!(segments(1000, mem, None), (3, all));
}

#[test]
fn multistring_walk_of_an_empty_multistring() {
    assert_eq!(segments(1000, b"\0", None), (0, vec![]));
    assert_eq!(segments(1000, b"\0\0", Some(4)), (0, vec![]));
    assert_eq!(segments(0, b"", Some(0)), (0, vec![]));
    assert_eq!(segments(1000, b"a\0", Some(1)), (1, vec![(1000, b"a".to_vec())]));
}

#[test]
fn strings_are_equal_by_their_bytes() {
    let a = "hello".to_c_str();
    let b = CString::new_unowned(8, run(b"hello\0junk"), 5);
    let c = "hellp".to_c_str();
    assert!(a == b);
    assert!(a != c);
    assert!(b"he\0llo".to_c_str_unchecked() != "he".to_c_str());
    assert!(buf_dup(b"he\0llo") == buf_dup(b"he"));
    assert!(buf_dup(b"he") != buf_dup(b"hf"));
    assert!(CStrBuf::new_unowned(8, run(b"x\0")) == CStrBuf::new_libc(16, run(b"x\0y\0")));
}

#[test]
fn strings_are_ordered_by_their_bytes() {
    assert_eq!(compare(b"", b""), Ordering::Equal);
    assert_eq!(compare(b"", b"a"), Ordering::Less);
    assert_eq!(compare(b"a", b""), Ordering::Greater);
    assert_eq!(compare(b"abc", b"abd"), Ordering::Less);
    assert_eq!(compare(b"abd", b"abc"), Ordering::Greater);
    assert_eq!(compare(b"ab", b"abc"), Ordering::Less);
    assert_eq!(compare(b"abc", b"ab"), Ordering::Greater);
    assert_eq!(compare(b"a\x7F", b"a\x80"), Ordering::Less);
    assert_eq!(compare(b"\xFF", b"\x01"), Ordering::Greater);
    assert_eq!(compare(b"abc", b"abc"), Ordering::Equal);

    let a = "abc".to_c_str();
    let b = "abd".to_c_str();
    assert!(a < b);
    assert!(b > a);
    assert!(a <= a.to_c_str());
    assert_eq!(a.cmp(&b), Ordering::Less);
    assert_eq!(b.cmp(&a), Ordering::Greater);
    assert_eq!(a.cmp(&a.to_c_str()), Ordering::Equal);
    assert_eq!(a.partial_cmp(&b), Some(Ordering::Less));
    assert!("ab".to_c_str() < "abc".to_c_str());
    assert!(b"ab\0c".to_c_str_unchecked() > "ab".to_c_str());

    let x = buf_dup(b"abc");
    let y = buf_dup(b"abd");
    assert!(x < y);
    assert_eq!(x.cmp(&y), Ordering::Less);
    assert_eq!(y.cmp(&x), Ordering::Greater);
    assert_eq!(x.cmp(&buf_dup(b"abc\0zzz")), Ordering::Equal);
    assert_eq!(x.partial_cmp(&y), Some(Ordering::Less));
    assert!(buf_dup(b"\xFF") > buf_dup(b"\x7F"));
}

#[test]
fn multistring_must_hold_every_byte_of_the_walk() {
    assert!(valid_multistring(b"zero\0one\0\0", None));
    assert!(valid_multistring(b"\0", None));
    assert!(!valid_multistring(b"", None));
    assert!(!valid_multistring(b"zero\0one\0", None));
    assert!(!valid_multistring(b"zero\0one", None));
    assert!(!valid_multistring(b"zero", None));
    assert!(valid_multistring(b"", Some(0)));
    assert!(valid_multistring(b"zero", Some(0)));
    assert!(valid_multistring(b"zero\0one\0", Some(2)));
    assert!(valid_multistring(b"zero\0one\0", Some(1)));
    assert!(!valid_multistring(b"zero\0one\0", Some(3)));
    assert!(!valid_multistring(b"zero\0one", Some(2)));
    assert!(valid_multistring(b"zero\0one", Some(1)));
    assert!(valid_multistring(b"zero\0\0one", Some(5)));
}
