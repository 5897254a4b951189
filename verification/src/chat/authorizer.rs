//! Whether a tool call runs at once or asks the user first.
use vstd::prelude::*;

use crate::chat::mapper::{call_id_of, tool_call_id};
use crate::chat::error::TurnError;
use crate::protocol::{Builtin, ToolCall};
use crate::text::{owned, push_str, str_eq};

verus! {

/// A question put to the user before a tool call runs.
#[derive(Debug, Clone, PartialEq, Eq)]
pub struct PermissionRequest {
    pub request_id: String,
    pub tool_call_id: String,
}

/// Whether a tool call runs at once or asks first.
#[derive(Debug, Clone, PartialEq, Eq)]
pub enum AuthorizationDecision {
    Allow,
    Ask(PermissionRequest),
}

/// The decision for a tool call: a built-in tool the agent's tool surface
/// allows runs at once; any other call asks, under the request id
/// `perm-` and the call's id.
pub fn authorization(call: &ToolCall, builtin_allowed: bool) -> (r: AuthorizationDecision)
    ensures
        (call is Builtin && builtin_allowed) ==> r == AuthorizationDecision::Allow,
        !(call is Builtin && builtin_allowed) ==> (r matches AuthorizationDecision::Ask(req)
            && req.request_id@ == "perm-"@ + call_id_of(*call) && req.tool_call_id@ == call_id_of(
            *call,
        )),
{
    let is_builtin = match call {
        ToolCall::Builtin(_) => true,
        _ => false,
    };
    if is_builtin && builtin_allowed {
        return AuthorizationDecision::Allow;
    }
    let id = tool_call_id(call);
    let mut request_id = owned("perm-");
    push_str(&mut request_id, id);
    AuthorizationDecision::Ask(PermissionRequest { request_id, tool_call_id: owned(id) })
}


/// Whether two built-in tools are the same tool: the same known tool, or
/// unknown tools of the same name.
pub open spec fn is_same_builtin(a: Builtin, b: Builtin) -> bool {
    match (a, b) {
        (Builtin::Unknown(x), Builtin::Unknown(y)) => x@ == y@,
        (Builtin::Unknown(_), _) => false,
        (_, Builtin::Unknown(_)) => false,
        _ => a == b,
    }
}

/// Whether two built-in tools are the same tool.
fn same_builtin(a: &Builtin, b: &Builtin) -> (r: bool)
    ensures
        r == is_same_builtin(*a, *b),
{
    match (a, b) {
        (Builtin::Unknown(x), Builtin::Unknown(y)) => str_eq(x.as_str(), y.as_str()),
        (Builtin::Read, Builtin::Read) => true,
        (Builtin::Glob, Builtin::Glob) => true,
        (Builtin::Grep, Builtin::Grep) => true,
        (Builtin::UpdatePlan, Builtin::UpdatePlan) => true,
        (Builtin::Shell, Builtin::Shell) => true,
        (Builtin::DomainCookies, Builtin::DomainCookies) => true,
        (Builtin::Git, Builtin::Git) => true,
        _ => false,
    }
}

/// Lets the built-in tools of an agent's tool surface run at once, and has
/// every other call ask first.
#[derive(Debug)]
pub struct AllowListedToolAuthorizer {
    allowed_builtins: Vec<Builtin>,
}

/// Whether `call` is a built-in tool of `allowed`.
pub open spec fn allows_call(allowed: Seq<Builtin>, call: ToolCall) -> bool {
    call matches ToolCall::Builtin(b) && exists|k: int|
        0 <= k < allowed.len() && is_same_builtin(#[trigger] allowed[k], b.builtin)
}

impl AllowListedToolAuthorizer {
    /// The built-in tools that run without asking.
    pub closed spec fn surface(&self) -> Seq<Builtin> {
        self.allowed_builtins@
    }

    /// An authorizer for the built-in tools `allowed_builtins` of a surface.
    pub fn new(allowed_builtins: Vec<Builtin>) -> (r: AllowListedToolAuthorizer)
        ensures
            r.surface() == allowed_builtins@,
    {
        AllowListedToolAuthorizer { allowed_builtins }
    }

    /// The decision for a tool call: one of the surface's built-in tools
    /// runs at once; any other call asks, under the request id `perm-` and
    /// the call's id.
    pub fn authorize(&self, call: &ToolCall) -> (r: Result<AuthorizationDecision, TurnError>)
        ensures
            allows_call(self.surface(), *call) ==> r == Ok::<AuthorizationDecision, TurnError>(
                AuthorizationDecision::Allow,
            ),
            !allows_call(self.surface(), *call) ==> (r matches Ok(AuthorizationDecision::Ask(req))
                && req.request_id@ == "perm-"@ + call_id_of(*call) && req.tool_call_id@ == call_id_of(
                *call,
            )),
    {
        let allowed = match call {
            ToolCall::Builtin(b) => {
                let mut found = false;
                let mut i: usize = 0;
                while i < self.allowed_builtins.len()
                    invariant
                        i <= self.allowed_builtins@.len(),
                        found == exists|k: int|
                            0 <= k < i && is_same_builtin(#[trigger] self.allowed_builtins@[k], b.builtin),
                    decreases self.allowed_builtins@.len() - i,
                {
                    if same_builtin(&self.allowed_builtins[i], &b.builtin) {
                        found = true;
                    }
                    i = i + 1;
                }
                found
            },
            _ => false,
        };
        Ok(authorization(call, allowed))
    }
}

} // verus!
