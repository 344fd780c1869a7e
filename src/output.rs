//! Choosing where the converted text goes.
use crate::errors::OutputWithSameNameError;
use crate::text::same_text;
use vstd::prelude::*;

verus! {

/// The output name used when none is given.
pub const DEFAULT_NAME: &'static str = "formatted";

/// The output name to use: a single file converted under the default name
/// gets the default name with a ".csv" extension; any other name is kept.
pub fn resolve_output_name(path_is_dir: bool, output: &str) -> (r: String)
    ensures
        r@ == if !path_is_dir && output@ == DEFAULT_NAME@ {
            DEFAULT_NAME@ + ".csv"@
        } else {
            output@
        },
{
    if !path_is_dir && same_text(output, DEFAULT_NAME) {
        let mut r = String::from_str(DEFAULT_NAME);
        r.append(".csv");
        r
    } else {
        String::from_str(output)
    }
}

/// Refuses an output name equal to the input's.
pub fn check_output_name(
    input_name: &str,
    output: &str,
) -> (r: Result<(), OutputWithSameNameError>)
    ensures
        r is Err <==> input_name@ == output@,
{
    if same_text(input_name, output) {
        Err(OutputWithSameNameError::new())
    } else {
        Ok(())
    }
}

} // verus!
