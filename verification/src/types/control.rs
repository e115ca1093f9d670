//! Control protocol types: the requests either side can issue and the
//! responses that answer them. Payloads that are free-form JSON (a tool
//! input, an MCP message, a response body) are held as their JSON text.

use vstd::prelude::*;

verus! {

/// Control interrupt request.
#[derive(Debug, Clone, PartialEq)]
pub struct SDKControlInterruptRequest {
    pub subtype: String,
}

impl Default for SDKControlInterruptRequest {
    fn default() -> (r: SDKControlInterruptRequest)
        ensures
            r.subtype@ == "interrupt"@,
    {
        SDKControlInterruptRequest { subtype: "interrupt".to_owned() }
    }
}

/// Control permission request (the child asking whether a tool may run).
#[derive(Debug, Clone, PartialEq)]
pub struct SDKControlPermissionRequest {
    pub subtype: String,
    pub tool_name: String,
    pub input: String,
    pub permission_suggestions: Option<Vec<String>>,
    pub blocked_path: Option<String>,
}

/// Control initialize request; `hooks` holds the hook configuration as JSON text.
#[derive(Debug, Clone, PartialEq)]
pub struct SDKControlInitializeRequest {
    pub subtype: String,
    pub hooks: Option<String>,
}

impl Default for SDKControlInitializeRequest {
    fn default() -> (r: SDKControlInitializeRequest)
        ensures
            r.subtype@ == "initialize"@,
            r.hooks is None,
    {
        SDKControlInitializeRequest { subtype: "initialize".to_owned(), hooks: None }
    }
}

/// Control set permission mode request.
#[derive(Debug, Clone, PartialEq)]
pub struct SDKControlSetPermissionModeRequest {
    pub subtype: String,
    pub mode: String,
}

impl SDKControlSetPermissionModeRequest {
    pub fn new(mode: &str) -> (r: SDKControlSetPermissionModeRequest)
        ensures
            r.subtype@ == "set_permission_mode"@,
            r.mode@ == mode@,
    {
        SDKControlSetPermissionModeRequest {
            subtype: "set_permission_mode".to_owned(),
            mode: mode.to_owned(),
        }
    }
}

/// Control set model request.
#[derive(Debug, Clone, PartialEq)]
pub struct SDKControlSetModelRequest {
    pub subtype: String,
    pub model: Option<String>,
}

impl SDKControlSetModelRequest {
    pub fn new(model: Option<String>) -> (r: SDKControlSetModelRequest)
        ensures
            r.subtype@ == "set_model"@,
            r.model == model,
    {
        SDKControlSetModelRequest { subtype: "set_model".to_owned(), model }
    }
}

/// Hook callback request (the child invoking a registered hook).
#[derive(Debug, Clone, PartialEq)]
pub struct SDKHookCallbackRequest {
    pub subtype: String,
    pub callback_id: String,
    pub input: String,
    pub tool_use_id: Option<String>,
}

/// Control MCP message request.
#[derive(Debug, Clone, PartialEq)]
pub struct SDKControlMcpMessageRequest {
    pub subtype: String,
    pub server_name: String,
    pub message: String,
}

/// Control rewind files request.
#[derive(Debug, Clone, PartialEq)]
pub struct SDKControlRewindFilesRequest {
    pub subtype: String,
    pub user_message_id: String,
}

impl SDKControlRewindFilesRequest {
    pub fn new(user_message_id: &str) -> (r: SDKControlRewindFilesRequest)
        ensures
            r.subtype@ == "rewind_files"@,
            r.user_message_id@ == user_message_id@,
    {
        SDKControlRewindFilesRequest {
            subtype: "rewind_files".to_owned(),
            user_message_id: user_message_id.to_owned(),
        }
    }
}

/// Control MCP status request.
#[derive(Debug, Clone, PartialEq)]
pub struct SDKControlMcpStatusRequest {
    pub subtype: String,
}

impl Default for SDKControlMcpStatusRequest {
    fn default() -> (r: SDKControlMcpStatusRequest)
        ensures
            r.subtype@ == "mcp_status"@,
    {
        SDKControlMcpStatusRequest { subtype: "mcp_status".to_owned() }
    }
}

/// Control request variants. Free-form payloads are JSON text.
#[derive(Debug, Clone, PartialEq)]
pub enum SDKControlRequestVariant {
    Interrupt,
    CanUseTool {
        tool_name: String,
        input: String,
        permission_suggestions: Option<Vec<String>>,
        blocked_path: Option<String>,
    },
    Initialize { hooks: Option<String> },
    SetPermissionMode { mode: String },
    SetModel { model: Option<String> },
    HookCallback { callback_id: String, input: String, tool_use_id: Option<String> },
    McpMessage { server_name: String, message: String },
    RewindFiles { user_message_id: String },
    McpStatus,
}

/// Control request wrapper: the envelope that goes on the wire.
#[derive(Debug, Clone, PartialEq)]
pub struct SDKControlRequest {
    pub request_type: String,
    pub request_id: String,
    pub request: SDKControlRequestVariant,
}

impl SDKControlRequest {
    pub fn new(request_id: &str, request: SDKControlRequestVariant) -> (r: SDKControlRequest)
        ensures
            r.request_type@ == "control_request"@,
            r.request_id@ == request_id@,
            r.request == request,
    {
        SDKControlRequest {
            request_type: "control_request".to_owned(),
            request_id: request_id.to_owned(),
            request,
        }
    }

    /// Create an interrupt request.
    pub fn interrupt(request_id: &str) -> (r: SDKControlRequest)
        ensures
            r.request_type@ == "control_request"@,
            r.request_id@ == request_id@,
            r.request == SDKControlRequestVariant::Interrupt,
    {
        SDKControlRequest::new(request_id, SDKControlRequestVariant::Interrupt)
    }

    /// Create an initialize request.
    pub fn initialize(request_id: &str, hooks: Option<String>) -> (r: SDKControlRequest)
        ensures
            r.request_type@ == "control_request"@,
            r.request_id@ == request_id@,
            r.request == (SDKControlRequestVariant::Initialize { hooks }),
    {
        SDKControlRequest::new(request_id, SDKControlRequestVariant::Initialize { hooks })
    }

    /// Create a set permission mode request.
    pub fn set_permission_mode(request_id: &str, mode: &str) -> (r: SDKControlRequest)
        ensures
            r.request_type@ == "control_request"@,
            r.request_id@ == request_id@,
            r.request matches SDKControlRequestVariant::SetPermissionMode { mode: m } && m@
                == mode@,
    {
        SDKControlRequest::new(
            request_id,
            SDKControlRequestVariant::SetPermissionMode { mode: mode.to_owned() },
        )
    }

    /// Create a set model request.
    pub fn set_model(request_id: &str, model: Option<String>) -> (r: SDKControlRequest)
        ensures
            r.request_type@ == "control_request"@,
            r.request_id@ == request_id@,
            r.request == (SDKControlRequestVariant::SetModel { model }),
    {
        SDKControlRequest::new(request_id, SDKControlRequestVariant::SetModel { model })
    }

    /// Create an MCP status request.
    pub fn mcp_status(request_id: &str) -> (r: SDKControlRequest)
        ensures
            r.request_type@ == "control_request"@,
            r.request_id@ == request_id@,
            r.request == SDKControlRequestVariant::McpStatus,
    {
        SDKControlRequest::new(request_id, SDKControlRequestVariant::McpStatus)
    }

    /// Create a rewind files request.
    pub fn rewind_files(request_id: &str, user_message_id: &str) -> (r: SDKControlRequest)
        ensures
            r.request_type@ == "control_request"@,
            r.request_id@ == request_id@,
            r.request matches SDKControlRequestVariant::RewindFiles { user_message_id: u } && u@
                == user_message_id@,
    {
        SDKControlRequest::new(
            request_id,
            SDKControlRequestVariant::RewindFiles { user_message_id: user_message_id.to_owned() },
        )
    }
}


/// Success control response body.
#[derive(Debug, Clone, PartialEq)]
pub struct ControlResponseSuccess {
    pub subtype: String,
    pub request_id: String,
    pub response: Option<String>,
}

/// Error control response body.
#[derive(Debug, Clone, PartialEq)]
pub struct ControlResponseError {
    pub subtype: String,
    pub request_id: String,
    pub error: String,
}

/// Control response variants; a success payload is JSON text.
#[derive(Debug, Clone, PartialEq)]
pub enum ControlResponseVariant {
    Success { request_id: String, response: Option<String> },
    Error { request_id: String, error: String },
}

/// The request id a control response answers.
pub open spec fn response_request_id(v: ControlResponseVariant) -> Seq<char> {
    match v {
        ControlResponseVariant::Success { request_id, .. } => request_id@,
        ControlResponseVariant::Error { request_id, .. } => request_id@,
    }
}

impl ControlResponseVariant {
    /// Get the request ID.
    pub fn request_id(&self) -> (r: &str)
        ensures
            r@ == response_request_id(*self),
    {
        match self {
            ControlResponseVariant::Success { request_id, .. } => request_id.as_str(),
            ControlResponseVariant::Error { request_id, .. } => request_id.as_str(),
        }
    }

    /// Check if this is a success response.
    pub fn is_success(&self) -> (r: bool)
        ensures
            r == (self matches ControlResponseVariant::Success { .. }),
    {
        matches!(self, ControlResponseVariant::Success { .. })
    }

    /// Check if this is an error response.
    pub fn is_error(&self) -> (r: bool)
        ensures
            r == (self matches ControlResponseVariant::Error { .. }),
    {
        matches!(self, ControlResponseVariant::Error { .. })
    }

    /// Get the response payload if this is a success.
    pub fn response(&self) -> (r: Option<&String>)
        ensures
            match r {
                Some(p) => self matches ControlResponseVariant::Success { response, .. }
                    && response == Some(*p),
                None => match *self {
                    ControlResponseVariant::Success { response, .. } => response is None,
                    ControlResponseVariant::Error { .. } => true,
                },
            },
    {
        match self {
            ControlResponseVariant::Success { response, .. } => response.as_ref(),
            ControlResponseVariant::Error { .. } => None,
        }
    }

    /// Get the error message if this is an error.
    pub fn error(&self) -> (r: Option<&str>)
        ensures
            match r {
                Some(e) => self matches ControlResponseVariant::Error { error, .. } && e@
                    == error@,
                None => self matches ControlResponseVariant::Success { .. },
            },
    {
        match self {
            ControlResponseVariant::Success { .. } => None,
            ControlResponseVariant::Error { error, .. } => Some(error.as_str()),
        }
    }
}

/// Control response wrapper: the envelope that goes on the wire.
#[derive(Debug, Clone, PartialEq)]
pub struct SDKControlResponse {
    pub response_type: String,
    pub response: ControlResponseVariant,
}

impl SDKControlResponse {
    /// Create a success response.
    pub fn success(request_id: &str, response: Option<String>) -> (r: SDKControlResponse)
        ensures
            r.response_type@ == "control_response"@,
            r.response matches ControlResponseVariant::Success { request_id: i, response: p } && i@
                == request_id@ && p == response,
    {
        SDKControlResponse {
            response_type: "control_response".to_owned(),
            response: ControlResponseVariant::Success {
                request_id: request_id.to_owned(),
                response,
            },
        }
    }

    /// Create an error response.
    pub fn error(request_id: &str, error: &str) -> (r: SDKControlResponse)
        ensures
            r.response_type@ == "control_response"@,
            r.response matches ControlResponseVariant::Error { request_id: i, error: e } && i@
                == request_id@ && e@ == error@,
    {
        SDKControlResponse {
            response_type: "control_response".to_owned(),
            response: ControlResponseVariant::Error {
                request_id: request_id.to_owned(),
                error: error.to_owned(),
            },
        }
    }

    /// Get the request ID.
    pub fn request_id(&self) -> (r: &str)
        ensures
            r@ == response_request_id(self.response),
    {
        self.response.request_id()
    }

    /// Check if this is a success response.
    pub fn is_success(&self) -> (r: bool)
        ensures
            r == (self.response matches ControlResponseVariant::Success { .. }),
    {
        self.response.is_success()
    }

    /// Check if this is an error response.
    pub fn is_error(&self) -> (r: bool)
        ensures
            r == (self.response matches ControlResponseVariant::Error { .. }),
    {
        self.response.is_error()
    }
}

} // verus!
