//! The HTTP-to-stdout bridge agent: its config, its control-line
//! handling, and the validation and framing of one ingress request.

use vstd::prelude::*;
use vstd::string::{StrSliceExecFns, StringExecFns};
use crate::json::{JsonValue, spec_parse_json, spec_obj_get, parse_json, obj_get};
use crate::control::{spec_parse_line, parse_line, line_has_verb};
use crate::strutil::str_eq;

verus! {

/// Mathematical image of an [`AgentConfig`].
pub struct AgentConfigV {
    pub address: Seq<char>,
    pub api_key: Option<Seq<char>>,
}

/// Configuration of the bridge agent: the listen address and an optional
/// bearer token. Replaced wholesale on a `.CONFIG` command, never
/// field-mutated.
pub struct AgentConfig {
    pub address: String,
    pub api_key: Option<String>,
}

impl View for AgentConfig {
    type V = AgentConfigV;

    open spec fn view(&self) -> AgentConfigV {
        AgentConfigV {
            address: self.address@,
            api_key: match self.api_key {
                Some(k) => Some(k@),
                None => None,
            },
        }
    }
}

/// The documented defaults: `localhost:3296`, no token.
pub open spec fn spec_default_config() -> AgentConfigV {
    AgentConfigV { address: "localhost:3296"@, api_key: None }
}

/// The config a parsed `.CONFIG` payload denotes: each field present as
/// a string in the top-level object is taken; a field absent or of
/// another shape falls back to its default. A payload that is not an
/// object yields the defaults.
pub open spec fn spec_config_of(doc: Option<JsonValue>) -> AgentConfigV {
    match doc {
        Some(JsonValue::Obj(m)) => AgentConfigV {
            address: match spec_obj_get(m@, "address"@) {
                Some(JsonValue::Str(s)) => s@,
                _ => "localhost:3296"@,
            },
            api_key: match spec_obj_get(m@, "api_key"@) {
                Some(JsonValue::Str(s)) => Some(s@),
                _ => None,
            },
        },
        _ => spec_default_config(),
    }
}

impl Default for AgentConfig {
    fn default() -> (c: Self)
        ensures
            c@ == spec_default_config(),
    {
        AgentConfig { address: String::from_str("localhost:3296"), api_key: None }
    }
}

impl AgentConfig {
    /// Builds the config a parsed payload denotes.
    pub fn of_json(doc: &Option<JsonValue>) -> (c: Self)
        ensures
            c@ == spec_config_of(*doc),
    {
        let mut c = AgentConfig::default();
        if let Some(JsonValue::Obj(m)) = doc {
            if let Some(JsonValue::Str(s)) = obj_get(m, "address") {
                c.address = s.clone();
            }
            if let Some(JsonValue::Str(s)) = obj_get(m, "api_key") {
                c.api_key = Some(s.clone());
            }
        }
        c
    }

    /// Parses a `.CONFIG` argument (or the startup config string) into a
    /// config, with defaults for anything missing or malformed.
    pub fn from_json_str(s: &str) -> (c: Self)
        ensures
            c@ == spec_config_of(spec_parse_json(s@)),
    {
        let doc = parse_json(s);
        AgentConfig::of_json(&doc)
    }
}

/// A `.CONFIG` payload updates exactly the fields it carries: a field
/// present as a string is taken verbatim; a field absent (or not a
/// string) falls back to its default rather than nulling the config out.
pub proof fn lemma_config_partial_update(v: JsonValue)
    requires
        v is Obj,
    ensures
        match spec_obj_get(v->Obj_0@, "address"@) {
            Some(JsonValue::Str(s)) => spec_config_of(Some(v)).address == s@,
            _ => spec_config_of(Some(v)).address == spec_default_config().address,
        },
        match spec_obj_get(v->Obj_0@, "api_key"@) {
            Some(JsonValue::Str(s)) => spec_config_of(Some(v)).api_key == Some(s@),
            _ => spec_config_of(Some(v)).api_key is None,
        },
{
}

/// One control line applied to the bridge config: `.CONFIG <json>`
/// replaces the config, `.QUIT` asks to stop, anything else (and a blank
/// line) changes nothing.
pub open spec fn spec_process_line(c: AgentConfigV, line: Seq<char>) -> (AgentConfigV, bool) {
    match spec_parse_line(line) {
        Some((cmd, args)) => {
            if cmd == ".CONFIG"@ {
                (spec_config_of(spec_parse_json(args)), false)
            } else if cmd == ".QUIT"@ {
                (c, true)
            } else {
                (c, false)
            }
        },
        None => (c, false),
    }
}

/// Applies one control line to the config; returns whether the agent
/// should quit.
pub fn process_line(config: &mut AgentConfig, line: &str) -> (quit: bool)
    ensures
        (final(config)@, quit) == spec_process_line(old(config)@, line@),
{
    if let Some((cmd, args)) = parse_line(line) {
        if str_eq(cmd, ".CONFIG") {
            *config = AgentConfig::from_json_str(args);
            false
        } else if str_eq(cmd, ".QUIT") {
            true
        } else {
            false
        }
    } else {
        false
    }
}

/// `.QUIT` stops the bridge within the very line that carries it, and
/// leaves the config untouched.
pub proof fn lemma_quit_is_immediate(c: AgentConfigV, line: Seq<char>)
    requires
        line_has_verb(line, ".QUIT"@),
    ensures
        spec_process_line(c, line).1,
        spec_process_line(c, line).0 == c,
{
    assert(!(".QUIT"@ =~= ".CONFIG"@)) by {
        reveal_strlit(".QUIT");
        reveal_strlit(".CONFIG");
    }
}

/// The payload of one ingress request: `Null`, or the JSON text of a
/// non-null value.
pub enum IngressValue {
    Null,
    Json(String),
}

/// One `POST /store` request, as plain values.
pub struct StoreRequest {
    pub agent: String,
    pub kind: String,
    pub value: IngressValue,
}

/// Mathematical image of a [`StoreOutcome`].
pub enum StoreOutcomeV {
    Accepted { line: Seq<char>, body: Seq<char> },
    Rejected { message: Seq<char> },
}

/// The bridge's answer to one ingress request: the outbound line and the
/// response body on success, or the error message sent back.
pub enum StoreOutcome {
    Accepted { line: String, body: String },
    Rejected { message: String },
}

impl View for StoreOutcome {
    type V = StoreOutcomeV;

    open spec fn view(&self) -> StoreOutcomeV {
        match self {
            StoreOutcome::Accepted { line, body } => StoreOutcomeV::Accepted {
                line: line@,
                body: body@,
            },
            StoreOutcome::Rejected { message } => StoreOutcomeV::Rejected { message: message@ },
        }
    }
}

/// Whether the bearer token fails the check: a non-empty configured key
/// that differs from the token. An absent or empty key is open mode.
pub open spec fn spec_auth_fails(c: AgentConfigV, token: Seq<char>) -> bool {
    match c.api_key {
        Some(k) => k.len() > 0 && token != k,
        None => false,
    }
}

/// The bridge's outbound framing: `.OUT`, the kind twice, then the JSON
/// payload, space-separated.
pub open spec fn spec_out_line2(kind: Seq<char>, json: Seq<char>) -> Seq<char> {
    ".OUT "@ + kind + " "@ + kind + " "@ + json
}

/// What one ingress request yields, checks in order: authentication,
/// then `kind` non-empty, then `value` non-null; a request that passes
/// all three is accepted with exactly one outbound line.
pub open spec fn spec_handle_store(c: AgentConfigV, token: Seq<char>, req: StoreRequest)
    -> StoreOutcomeV {
    if spec_auth_fails(c, token) {
        StoreOutcomeV::Rejected { message: "Unauthorized"@ }
    } else if req.kind@.len() == 0 {
        StoreOutcomeV::Rejected { message: "Kind is empty"@ }
    } else if req.value is Null {
        StoreOutcomeV::Rejected { message: "Value is null"@ }
    } else {
        StoreOutcomeV::Accepted {
            line: spec_out_line2(req.kind@, req.value->Json_0@),
            body: "{\"status\":\"ok\"}"@,
        }
    }
}

/// Validates one ingress request against the current config and, when it
/// passes, frames its outbound line and the success body.
pub fn handle_store(config: &AgentConfig, token: &str, req: &StoreRequest) -> (r: StoreOutcome)
    ensures
        r@ == spec_handle_store(config@, token@, *req),
{
    if let Some(k) = &config.api_key {
        if k.as_str().unicode_len() > 0 && !str_eq(token, k.as_str()) {
            return StoreOutcome::Rejected { message: String::from_str("Unauthorized") };
        }
    }
    if req.kind.as_str().is_empty() {
        return StoreOutcome::Rejected { message: String::from_str("Kind is empty") };
    }
    match &req.value {
        IngressValue::Null => StoreOutcome::Rejected {
            message: String::from_str("Value is null"),
        },
        IngressValue::Json(j) => {
            let mut line = String::from_str(".OUT ");
            line.append(req.kind.as_str());
            line.append(" ");
            line.append(req.kind.as_str());
            line.append(" ");
            line.append(j.as_str());
            proof {
                assert(line@ =~= spec_out_line2(req.kind@, j@));
            }
            StoreOutcome::Accepted { line, body: String::from_str("{\"status\":\"ok\"}") }
        },
    }
}

/// The ingress path has no dedup and no state: the outcome is a function
/// of config, token and request alone, so submitting the same request
/// twice yields the same accepted outcome (and so the same outbound
/// line) twice. A request is accepted exactly when it is authorized,
/// its kind is non-empty and its value is non-null.
pub proof fn lemma_ingress_idempotent(c: AgentConfigV, token: Seq<char>, req: StoreRequest)
    ensures
        (spec_handle_store(c, token, req) is Accepted) <==> (!spec_auth_fails(c, token)
            && req.kind@.len() > 0 && !(req.value is Null)),
{
}

} // verus!
