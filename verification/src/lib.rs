//! qmpo opens the directory that a `directory://` URI names. This library holds what
//! qmpo decides and computes; reading the clock, the file system and the registry, and
//! starting programs, is left to the program around it.
//!
//! - [`uri`]: the URI and the native path it stands for, with [`percent`] for its
//!   escapes and [`laws`] for what holds of every URI;
//! - [`launch`]: the command that shows a path in the file manager of a [`platform`];
//! - [`lau`]: what is written where qmpo is registered as the handler of the scheme;
//! - [`log`] and [`timestamp`]: the entries of the log file;
//! - [`text`]: small operations on strings;
//! - [`trusted`]: the few contracts that are believed and not proved.
//!
//! ```
//! use qmpo::DirectoryUri;
//!
//! let uri = DirectoryUri::parse("directory://C:/Users/tagawa").unwrap();
//! assert_eq!(uri.path(), "C:\\Users\\tagawa");
//! ```

pub mod error;
pub mod lau;
pub mod launch;
pub mod laws;
pub mod log;
pub mod percent;
pub mod platform;
pub mod text;
pub mod timestamp;
pub mod trusted;
pub mod uri;

pub use error::QmpoError;
pub use uri::DirectoryUri;
