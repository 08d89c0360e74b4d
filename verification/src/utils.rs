//! The two helpers that adapters call: timestamp normalisation and the
//! resolution of a book's ISBN.

pub use crate::resolve::get_identifier_from_book_isbn;
pub use crate::time::get_date_time_with_offset;
