//! Rewrites the field delimiter of delimiter-separated text, line by line,
//! optionally checking that every line holds as many delimiters as the first.
pub mod convert;
pub mod errors;
pub mod graphemes;
pub mod output;
pub mod text;

pub use convert::{process_line, Ending, FileConverter, LineAction, LineProcessingResult, Phase};
pub use errors::{CountError, DelimiterError, FileIsDirectoryError, OutputWithSameNameError};
pub use graphemes::{count_matching, get_number_of_delimiters, is_valid_delimiter};
pub use output::{check_output_name, resolve_output_name, DEFAULT_NAME};
pub use text::{replace_all, same_text};
