//! Null-terminated byte strings for foreign interfaces, with their ownership
//! rules.
//!
//! A C string is a run of bytes that ends at its first zero byte. The types
//! here describe such runs: [`CStrBuf`] owns one whose length is not known
//! yet, [`CString`] owns one together with its length, and
//! [`BorrowedCString`] looks at one that somebody else owns. A run is
//! described by the address of its first byte and by the bytes stored from
//! there on; an owner also records what is owed to the memory when it is
//! released.

pub mod borrowed;
pub mod buf;
pub mod bytes;
pub mod laws;
pub mod multistring;
pub mod order;
pub mod raw;
pub mod string;
pub mod to_c_str;

pub use borrowed::{BorrowedCString, CChars};
pub use buf::{CStrBuf, Dtor, Release};
pub use bytes::{valid_c_run, valid_c_run_of_len, contains_nul, strlen, NUL};
pub use multistring::{from_c_multistring, valid_multistring};
pub use string::CString;
pub use to_c_str::{buf_dup, str_dup, ToCStr, BUF_LEN};
