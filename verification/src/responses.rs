//! Outcome payloads the command layer hands back to its caller.

use vstd::prelude::*;
use crate::config::TemplateConfig;

verus! {

/// The outcome of a login attempt.
pub struct LoginResponse {
    pub success: bool,
    pub message: String,
}

impl LoginResponse {
    pub fn new(success: bool, message: String) -> (r: LoginResponse)
        ensures
            r.success == success,
            r.message == message,
    {
        LoginResponse { success, message }
    }
}

/// The outcome of a template operation, with the template it acted on when
/// there is one to report.
pub struct TemplateCommandResponse {
    pub success: bool,
    pub message: String,
    pub template: Option<TemplateConfig>,
}

impl TemplateCommandResponse {
    pub fn new(success: bool, message: String, template: Option<TemplateConfig>) -> (r:
        TemplateCommandResponse)
        ensures
            r.success == success,
            r.message == message,
            r.template == template,
    {
        TemplateCommandResponse { success, message, template }
    }
}

} // verus!
