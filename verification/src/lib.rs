//! A streaming reader for tab-separated observation records that follow the
//! fixed, named-column schema of the eBird Basic Dataset.
//!
//! The input is a byte stream holding one header row that names each column,
//! followed by zero or more data rows. [`Reader::advance`] steps from row to
//! row and [`Reader::read_record`] decodes the current row into a typed
//! [`Record`], resolving each schema column by its header name, so that the
//! column order of the file need not match the schema's declaration order.
//!
//! Text fields are copied into owned strings, so a decoded [`Record`] does
//! not borrow from the reader. Coordinates are kept as exact [`Decimal`]
//! values; converting them to machine floating point is left to the caller.

pub mod reader;
pub mod record;
pub mod rows;
pub mod schema;
pub mod values;

pub use reader::ReadError;
pub use reader::ReaderV;
pub use reader::Reader;
pub use record::DecodeError;
pub use record::Record;
pub use record::RecordV;
pub use values::Decimal;
