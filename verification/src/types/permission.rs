//! Permission types: modes, rules, updates and the results a permission
//! callback can return. A permission update can render itself as the JSON
//! object the wire protocol carries; the exact text is specified here.

use vstd::prelude::*;

use crate::strutil::json_quoted;
use crate::strutil::push_json_quoted;
use crate::strutil::push_char;
use crate::strutil::push_string_array;
use crate::strutil::string_array_json;

verus! {

/// Permission modes controlling tool execution behavior.
#[derive(Debug, Clone, Copy, PartialEq, Eq, Structural)]
pub enum PermissionMode {
    /// The child prompts for dangerous tools.
    Default,
    /// Auto-accept file edits.
    AcceptEdits,
    /// Plan mode: dry run without execution.
    Plan,
    /// Allow all tools (use with caution).
    BypassPermissions,
}

/// The wire rendering of a permission mode.
pub open spec fn permission_mode_str(m: PermissionMode) -> Seq<char> {
    match m {
        PermissionMode::Default => "default"@,
        PermissionMode::AcceptEdits => "acceptEdits"@,
        PermissionMode::Plan => "plan"@,
        PermissionMode::BypassPermissions => "bypassPermissions"@,
    }
}

impl PermissionMode {
    /// Convert to the flag value the child understands.
    pub fn as_str(&self) -> (r: &'static str)
        ensures
            r@ == permission_mode_str(*self),
    {
        match self {
            PermissionMode::Default => "default",
            PermissionMode::AcceptEdits => "acceptEdits",
            PermissionMode::Plan => "plan",
            PermissionMode::BypassPermissions => "bypassPermissions",
        }
    }
}

impl Default for PermissionMode {
    fn default() -> (r: PermissionMode)
        ensures
            r == PermissionMode::Default,
    {
        PermissionMode::Default
    }
}

/// Destination for permission updates.
#[derive(Debug, Clone, Copy, PartialEq, Eq, Structural)]
pub enum PermissionUpdateDestination {
    UserSettings,
    ProjectSettings,
    LocalSettings,
    Session,
}

/// The wire rendering of an update destination.
pub open spec fn destination_str(d: PermissionUpdateDestination) -> Seq<char> {
    match d {
        PermissionUpdateDestination::UserSettings => "userSettings"@,
        PermissionUpdateDestination::ProjectSettings => "projectSettings"@,
        PermissionUpdateDestination::LocalSettings => "localSettings"@,
        PermissionUpdateDestination::Session => "session"@,
    }
}

/// Permission behavior attached to rules.
#[derive(Debug, Clone, Copy, PartialEq, Eq, Structural)]
pub enum PermissionBehavior {
    Allow,
    Deny,
    Ask,
}

/// The wire rendering of a permission behavior.
pub open spec fn behavior_str(b: PermissionBehavior) -> Seq<char> {
    match b {
        PermissionBehavior::Allow => "allow"@,
        PermissionBehavior::Deny => "deny"@,
        PermissionBehavior::Ask => "ask"@,
    }
}

/// Permission rule value: a tool name with optional rule content.
#[derive(Debug, Clone, PartialEq)]
pub struct PermissionRuleValue {
    pub tool_name: String,
    pub rule_content: Option<String>,
}

impl PermissionRuleValue {
    pub fn new(tool_name: &str) -> (r: PermissionRuleValue)
        ensures
            r.tool_name@ == tool_name@,
            r.rule_content is None,
    {
        PermissionRuleValue { tool_name: tool_name.to_owned(), rule_content: None }
    }

    pub fn with_content(self, content: &str) -> (r: PermissionRuleValue)
        ensures
            r.tool_name == self.tool_name,
            r.rule_content matches Some(c) && c@ == content@,
    {
        PermissionRuleValue { rule_content: Some(content.to_owned()), ..self }
    }
}

/// Kind of a permission update.
#[derive(Debug, Clone, Copy, PartialEq, Eq, Structural)]
pub enum PermissionUpdateType {
    AddRules,
    ReplaceRules,
    RemoveRules,
    SetMode,
    AddDirectories,
    RemoveDirectories,
}

/// The wire rendering of an update type.
pub open spec fn update_type_str(t: PermissionUpdateType) -> Seq<char> {
    match t {
        PermissionUpdateType::AddRules => "addRules"@,
        PermissionUpdateType::ReplaceRules => "replaceRules"@,
        PermissionUpdateType::RemoveRules => "removeRules"@,
        PermissionUpdateType::SetMode => "setMode"@,
        PermissionUpdateType::AddDirectories => "addDirectories"@,
        PermissionUpdateType::RemoveDirectories => "removeDirectories"@,
    }
}

/// Permission update configuration.
#[derive(Debug, Clone, PartialEq)]
pub struct PermissionUpdate {
    pub update_type: PermissionUpdateType,
    pub rules: Option<Vec<PermissionRuleValue>>,
    pub behavior: Option<PermissionBehavior>,
    pub mode: Option<PermissionMode>,
    pub directories: Option<Vec<String>>,
    pub destination: Option<PermissionUpdateDestination>,
}

/// The JSON object for one rule value: keys in sorted order, a missing rule
/// content rendered as null.
pub open spec fn rule_value_json(r: PermissionRuleValue) -> Seq<char> {
    "{\"ruleContent\":"@ + (match r.rule_content {
        Some(c) => json_quoted(c@),
        None => "null"@,
    }) + ",\"toolName\":"@ + json_quoted(r.tool_name@) + seq!['}']
}

/// The body of a JSON array of rule values, comma separated.
pub open spec fn rules_array_body(rules: Seq<PermissionRuleValue>) -> Seq<char>
    decreases rules.len(),
{
    if rules.len() == 0 {
        Seq::empty()
    } else if rules.len() == 1 {
        rule_value_json(rules[0])
    } else {
        rules_array_body(rules.drop_last()) + seq![','] + rule_value_json(rules.last())
    }
}

/// A JSON array of rule values.
pub open spec fn rules_array_json(rules: Seq<PermissionRuleValue>) -> Seq<char> {
    seq!['['] + rules_array_body(rules) + seq![']']
}

/// The optional destination entry of an update dictionary.
pub open spec fn destination_entry(d: Option<PermissionUpdateDestination>) -> Seq<char> {
    match d {
        Some(dest) => ",\"destination\":"@ + json_quoted(destination_str(dest)),
        None => Seq::empty(),
    }
}

/// The dictionary form of a permission update as JSON text: the update type,
/// the destination when present, and the fields that belong to its kind.
pub open spec fn permission_update_json(u: PermissionUpdate) -> Seq<char> {
    "{\"type\":"@ + json_quoted(update_type_str(u.update_type)) + destination_entry(u.destination)
        + (match u.update_type {
        PermissionUpdateType::AddRules
        | PermissionUpdateType::ReplaceRules
        | PermissionUpdateType::RemoveRules => (match u.rules {
            Some(rules) => ",\"rules\":"@ + rules_array_json(rules@),
            None => Seq::empty(),
        }) + (match u.behavior {
            Some(b) => ",\"behavior\":"@ + json_quoted(behavior_str(b)),
            None => Seq::empty(),
        }),
        PermissionUpdateType::SetMode => (match u.mode {
            Some(m) => ",\"mode\":"@ + json_quoted(permission_mode_str(m)),
            None => Seq::empty(),
        }),
        PermissionUpdateType::AddDirectories | PermissionUpdateType::RemoveDirectories => (match u
            .directories {
            Some(dirs) => ",\"directories\":"@ + string_array_json(dirs.deep_view()),
            None => Seq::empty(),
        }),
    }) + seq!['}']
}

impl PermissionUpdate {
    /// Create a new add rules update.
    pub fn add_rules(rules: Vec<PermissionRuleValue>, behavior: PermissionBehavior) -> (r:
        PermissionUpdate)
        ensures
            r == (PermissionUpdate {
                update_type: PermissionUpdateType::AddRules,
                rules: Some(rules),
                behavior: Some(behavior),
                mode: None,
                directories: None,
                destination: None,
            }),
    {
        PermissionUpdate {
            update_type: PermissionUpdateType::AddRules,
            rules: Some(rules),
            behavior: Some(behavior),
            mode: None,
            directories: None,
            destination: None,
        }
    }

    /// Create a new replace rules update.
    pub fn replace_rules(rules: Vec<PermissionRuleValue>, behavior: PermissionBehavior) -> (r:
        PermissionUpdate)
        ensures
            r == (PermissionUpdate {
                update_type: PermissionUpdateType::ReplaceRules,
                rules: Some(rules),
                behavior: Some(behavior),
                mode: None,
                directories: None,
                destination: None,
            }),
    {
        PermissionUpdate {
            update_type: PermissionUpdateType::ReplaceRules,
            rules: Some(rules),
            behavior: Some(behavior),
            mode: None,
            directories: None,
            destination: None,
        }
    }

    /// Create a new remove rules update.
    pub fn remove_rules(rules: Vec<PermissionRuleValue>) -> (r: PermissionUpdate)
        ensures
            r == (PermissionUpdate {
                update_type: PermissionUpdateType::RemoveRules,
                rules: Some(rules),
                behavior: None,
                mode: None,
                directories: None,
                destination: None,
            }),
    {
        PermissionUpdate {
            update_type: PermissionUpdateType::RemoveRules,
            rules: Some(rules),
            behavior: None,
            mode: None,
            directories: None,
            destination: None,
        }
    }

    /// Create a new set mode update.
    pub fn set_mode(mode: PermissionMode) -> (r: PermissionUpdate)
        ensures
            r == (PermissionUpdate {
                update_type: PermissionUpdateType::SetMode,
                rules: None,
                behavior: None,
                mode: Some(mode),
                directories: None,
                destination: None,
            }),
    {
        PermissionUpdate {
            update_type: PermissionUpdateType::SetMode,
            rules: None,
            behavior: None,
            mode: Some(mode),
            directories: None,
            destination: None,
        }
    }

    /// Create a new add directories update.
    pub fn add_directories(directories: Vec<String>) -> (r: PermissionUpdate)
        ensures
            r == (PermissionUpdate {
                update_type: PermissionUpdateType::AddDirectories,
                rules: None,
                behavior: None,
                mode: None,
                directories: Some(directories),
                destination: None,
            }),
    {
        PermissionUpdate {
            update_type: PermissionUpdateType::AddDirectories,
            rules: None,
            behavior: None,
            mode: None,
            directories: Some(directories),
            destination: None,
        }
    }

    /// Create a new remove directories update.
    pub fn remove_directories(directories: Vec<String>) -> (r: PermissionUpdate)
        ensures
            r == (PermissionUpdate {
                update_type: PermissionUpdateType::RemoveDirectories,
                rules: None,
                behavior: None,
                mode: None,
                directories: Some(directories),
                destination: None,
            }),
    {
        PermissionUpdate {
            update_type: PermissionUpdateType::RemoveDirectories,
            rules: None,
            behavior: None,
            mode: None,
            directories: Some(directories),
            destination: None,
        }
    }

    /// Set the destination for this update.
    pub fn with_destination(self, destination: PermissionUpdateDestination) -> (r:
        PermissionUpdate)
        ensures
            r == (PermissionUpdate { destination: Some(destination), ..self }),
    {
        PermissionUpdate { destination: Some(destination), ..self }
    }

    /// Render this update as the dictionary the wire protocol carries,
    /// as JSON text.
    #[verifier::rlimit(50)]
    pub fn to_dict(&self) -> (r: String)
        ensures
            r@ == permission_update_json(*self),
    {
        let mut s = String::from_str("{\"type\":");
        push_json_quoted(&mut s, update_type_str_exec(self.update_type));
        if let Some(dest) = self.destination {
            s.append(",\"destination\":");
            push_json_quoted(&mut s, destination_str_exec(dest));
        }
        match self.update_type {
            PermissionUpdateType::AddRules
            | PermissionUpdateType::ReplaceRules
            | PermissionUpdateType::RemoveRules => {
                if let Some(rules) = &self.rules {
                    s.append(",\"rules\":");
                    push_rules_array(&mut s, rules);
                }
                if let Some(b) = self.behavior {
                    s.append(",\"behavior\":");
                    push_json_quoted(&mut s, behavior_str_exec(b));
                }
            },
            PermissionUpdateType::SetMode => {
                if let Some(m) = self.mode {
                    s.append(",\"mode\":");
                    push_json_quoted(&mut s, m.as_str());
                }
            },
            PermissionUpdateType::AddDirectories | PermissionUpdateType::RemoveDirectories => {
                if let Some(dirs) = &self.directories {
                    s.append(",\"directories\":");
                    push_string_array(&mut s, dirs);
                }
            },
        }
        push_char(&mut s, '}');
        assert(s@ =~= permission_update_json(*self));
        s
    }
}

fn update_type_str_exec(t: PermissionUpdateType) -> (r: &'static str)
    ensures
        r@ == update_type_str(t),
{
    match t {
        PermissionUpdateType::AddRules => "addRules",
        PermissionUpdateType::ReplaceRules => "replaceRules",
        PermissionUpdateType::RemoveRules => "removeRules",
        PermissionUpdateType::SetMode => "setMode",
        PermissionUpdateType::AddDirectories => "addDirectories",
        PermissionUpdateType::RemoveDirectories => "removeDirectories",
    }
}

fn destination_str_exec(d: PermissionUpdateDestination) -> (r: &'static str)
    ensures
        r@ == destination_str(d),
{
    match d {
        PermissionUpdateDestination::UserSettings => "userSettings",
        PermissionUpdateDestination::ProjectSettings => "projectSettings",
        PermissionUpdateDestination::LocalSettings => "localSettings",
        PermissionUpdateDestination::Session => "session",
    }
}

fn behavior_str_exec(b: PermissionBehavior) -> (r: &'static str)
    ensures
        r@ == behavior_str(b),
{
    match b {
        PermissionBehavior::Allow => "allow",
        PermissionBehavior::Deny => "deny",
        PermissionBehavior::Ask => "ask",
    }
}

/// Append one rule value as its JSON object.
fn push_rule_value(s: &mut String, r: &PermissionRuleValue)
    ensures
        final(s)@ == old(s)@ + rule_value_json(*r),
{
    s.append("{\"ruleContent\":");
    match &r.rule_content {
        Some(c) => push_json_quoted(s, c.as_str()),
        None => s.append("null"),
    }
    s.append(",\"toolName\":");
    push_json_quoted(s, r.tool_name.as_str());
    push_char(s, '}');
    assert(final(s)@ =~= old(s)@ + rule_value_json(*r));
}

/// Append a JSON array of rule values.
fn push_rules_array(s: &mut String, rules: &Vec<PermissionRuleValue>)
    ensures
        final(s)@ == old(s)@ + rules_array_json(rules@),
{
    push_char(s, '[');
    let n = rules.len();
    let mut i: usize = 0;
    while i < n
        invariant
            n == rules.len(),
            i <= n,
            s@ == old(s)@ + seq!['['] + rules_array_body(rules@.subrange(0, i as int)),
        decreases n - i,
    {
        if i > 0 {
            push_char(s, ',');
        }
        push_rule_value(s, &rules[i]);
        proof {
            let all = rules@;
            assert(all.subrange(0, i as int + 1).drop_last() =~= all.subrange(0, i as int));
            assert(all.subrange(0, i as int + 1).last() == all[i as int]);
            assert(s@ =~= old(s)@ + seq!['['] + rules_array_body(all.subrange(0, i as int + 1)));
        }
        i = i + 1;
    }
    push_char(s, ']');
    proof {
        let all = rules@;
        assert(all.subrange(0, n as int) =~= all);
        assert(final(s)@ =~= old(s)@ + rules_array_json(all));
    }
}

/// Context information for tool permission callbacks.
#[derive(Debug, Clone)]
pub struct ToolPermissionContext {
    /// Reserved for future abort signal support.
    pub signal: Option<()>,
    /// Permission suggestions from the child.
    pub suggestions: Vec<PermissionUpdate>,
}

impl ToolPermissionContext {
    pub fn new() -> (r: ToolPermissionContext)
        ensures
            r.signal is None,
            r.suggestions@ == Seq::<PermissionUpdate>::empty(),
    {
        ToolPermissionContext { signal: None, suggestions: Vec::new() }
    }

    pub fn with_suggestions(self, suggestions: Vec<PermissionUpdate>) -> (r: ToolPermissionContext)
        ensures
            r == (ToolPermissionContext { suggestions, ..self }),
    {
        ToolPermissionContext { suggestions, ..self }
    }
}

impl Default for ToolPermissionContext {
    fn default() -> (r: ToolPermissionContext)
        ensures
            r.signal is None,
            r.suggestions@ == Seq::<PermissionUpdate>::empty(),
    {
        ToolPermissionContext::new()
    }
}

/// Allow permission result.
#[derive(Debug, Clone, PartialEq)]
pub struct PermissionResultAllow {
    pub behavior: String,
    /// Replacement tool input as JSON text, when the callback rewrites it.
    pub updated_input: Option<String>,
    pub updated_permissions: Option<Vec<PermissionUpdate>>,
}

impl PermissionResultAllow {
    pub fn new() -> (r: PermissionResultAllow)
        ensures
            r.behavior@ == "allow"@,
            r.updated_input is None,
            r.updated_permissions is None,
    {
        PermissionResultAllow {
            behavior: "allow".to_owned(),
            updated_input: None,
            updated_permissions: None,
        }
    }

    pub fn with_updated_input(self, input: String) -> (r: PermissionResultAllow)
        ensures
            r == (PermissionResultAllow { updated_input: Some(input), ..self }),
    {
        PermissionResultAllow { updated_input: Some(input), ..self }
    }

    pub fn with_updated_permissions(self, permissions: Vec<PermissionUpdate>) -> (r:
        PermissionResultAllow)
        ensures
            r == (PermissionResultAllow { updated_permissions: Some(permissions), ..self }),
    {
        PermissionResultAllow { updated_permissions: Some(permissions), ..self }
    }
}

impl Default for PermissionResultAllow {
    fn default() -> (r: PermissionResultAllow)
        ensures
            r.behavior@ == "allow"@,
            r.updated_input is None,
            r.updated_permissions is None,
    {
        PermissionResultAllow::new()
    }
}

/// Deny permission result.
#[derive(Debug, Clone, PartialEq)]
pub struct PermissionResultDeny {
    pub behavior: String,
    pub message: String,
    pub interrupt: bool,
}

impl PermissionResultDeny {
    pub fn new() -> (r: PermissionResultDeny)
        ensures
            r.behavior@ == "deny"@,
            r.message@ == Seq::<char>::empty(),
            r.interrupt == false,
    {
        PermissionResultDeny { behavior: "deny".to_owned(), message: String::new(), interrupt: false }
    }

    pub fn with_message(self, message: &str) -> (r: PermissionResultDeny)
        ensures
            r.behavior == self.behavior,
            r.message@ == message@,
            r.interrupt == self.interrupt,
    {
        PermissionResultDeny { message: message.to_owned(), ..self }
    }

    pub fn with_interrupt(self, interrupt: bool) -> (r: PermissionResultDeny)
        ensures
            r == (PermissionResultDeny { interrupt, ..self }),
    {
        PermissionResultDeny { interrupt, ..self }
    }
}

impl Default for PermissionResultDeny {
    fn default() -> (r: PermissionResultDeny)
        ensures
            r.behavior@ == "deny"@,
            r.message@ == Seq::<char>::empty(),
            r.interrupt == false,
    {
        PermissionResultDeny::new()
    }
}

/// Permission result: what a permission callback decides.
#[derive(Debug, Clone, PartialEq)]
pub enum PermissionResult {
    Allow(PermissionResultAllow),
    Deny(PermissionResultDeny),
}

impl PermissionResult {
    /// Create an allow result.
    pub fn allow() -> (r: PermissionResult)
        ensures
            r matches PermissionResult::Allow(a) && a.behavior@ == "allow"@ && a.updated_input
                is None && a.updated_permissions is None,
    {
        PermissionResult::Allow(PermissionResultAllow::new())
    }

    /// Create a deny result.
    pub fn deny() -> (r: PermissionResult)
        ensures
            r matches PermissionResult::Deny(d) && d.behavior@ == "deny"@ && d.message@
                == Seq::<char>::empty() && d.interrupt == false,
    {
        PermissionResult::Deny(PermissionResultDeny::new())
    }

    /// Create a deny result with a message.
    pub fn deny_with_message(message: &str) -> (r: PermissionResult)
        ensures
            r matches PermissionResult::Deny(d) && d.behavior@ == "deny"@ && d.message@ == message@
                && d.interrupt == false,
    {
        PermissionResult::Deny(PermissionResultDeny::new().with_message(message))
    }

    /// Returns true if this is an allow result.
    pub fn is_allow(&self) -> (r: bool)
        ensures
            r == (self matches PermissionResult::Allow(_)),
    {
        matches!(self, PermissionResult::Allow(_))
    }

    /// Returns true if this is a deny result.
    pub fn is_deny(&self) -> (r: bool)
        ensures
            r == (self matches PermissionResult::Deny(_)),
    {
        matches!(self, PermissionResult::Deny(_))
    }
}

} // verus!
