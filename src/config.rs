use vstd::prelude::*;

use crate::error::ConfigurationError;

verus! {

/// Settings read once at startup and left unchanged for the whole run.
#[derive(Debug)]
pub struct RunConfiguration {
    pub input_dir: String,
    pub output_dir: String,
    pub date_code: String,
}

impl RunConfiguration {
    /// Reads the configuration from the lines of its file, counted from the
    /// end: the last line is the date-stamp code, the one before it the
    /// output directory, and the one before that the input directory.
    pub fn from_lines(lines: &Vec<String>) -> (r: Result<RunConfiguration, ConfigurationError>)
        ensures
            lines@.len() < 3 ==> r == Err::<RunConfiguration, ConfigurationError>(
                ConfigurationError::TooFewLines,
            ),
            lines@.len() >= 3 ==> r is Ok && r->Ok_0.input_dir@ == lines@[lines@.len() - 3]@
                && r->Ok_0.output_dir@ == lines@[lines@.len() - 2]@ && r->Ok_0.date_code@
                == lines@[lines@.len() - 1]@,
    {
        let n = lines.len();
        if n < 3 {
            return Err(ConfigurationError::TooFewLines);
        }
        Ok(
            RunConfiguration {
                input_dir: lines[n - 3].clone(),
                output_dir: lines[n - 2].clone(),
                date_code: lines[n - 1].clone(),
            },
        )
    }

    /// Where the output for the input file `name` is written: the output
    /// directory and the name, joined as text.
    pub fn output_path(&self, name: &str) -> (r: String)
        ensures
            r@ == self.output_dir@ + name@,
    {
        let mut p = self.output_dir.clone();
        p.append(name);
        p
    }
}

} // verus!
