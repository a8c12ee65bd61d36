use std::error;
use std::fmt;

use sam_pattern::NextActionData;

#[derive(Debug, Clone)]
pub struct SamError {
    message: String,
}

impl fmt::Display for SamError {
    fn fmt(&self, f: &mut fmt::Formatter) -> fmt::Result {
        f.write_str(&self.message)
    }
}

impl error::Error for SamError {}

#[test]
fn error_message() {
    let result: Result<i32, SamError> = Result::Err(SamError {
        message: "unknown error.".to_string(),
    });
    match result {
        Ok(_) => panic!("ERROR."),
        Err(e) => assert_eq!(e.to_string(), "unknown error.".to_string()),
    }
}

#[test]
fn error_crosses_a_signal_unchanged() {
    let signal: NextActionData<Result<i32, SamError>> = NextActionData::new_terminate(Err(SamError {
        message: "unknown error.".to_string(),
    }));
    match signal.get() {
        Ok(_) => panic!("ERROR."),
        Err(e) => assert_eq!(e.to_string(), "unknown error."),
    }
}
