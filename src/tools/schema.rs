//! The machine-readable description of a tool that is shown to the model.

use vstd::prelude::*;

verus! {

/// One declared argument of a tool.
#[derive(Debug)]
pub struct ArgSchema {
    pub name: String,
    pub arg_type: String,
    pub description: String,
    pub required: bool,
}

/// A tool's name, description and arguments.
#[derive(Debug)]
pub struct ToolSchema {
    pub name: String,
    pub description: String,
    pub args: Vec<ArgSchema>,
}

pub open spec fn hex_digit(n: u32) -> char {
    seq!['0', '1', '2', '3', '4', '5', '6', '7', '8', '9', 'a', 'b', 'c', 'd', 'e', 'f'][n as int]
}

/// How one character is written inside a JSON string literal: `"` and `\` and the
/// control characters are escaped, short forms first; everything else is kept.
pub open spec fn escape_char(c: char) -> Seq<char> {
    if c == '"' {
        seq!['\\', '"']
    } else if c == '\\' {
        seq!['\\', '\\']
    } else if c == '\x08' {
        seq!['\\', 'b']
    } else if c == '\t' {
        seq!['\\', 't']
    } else if c == '\n' {
        seq!['\\', 'n']
    } else if c == '\x0C' {
        seq!['\\', 'f']
    } else if c == '\r' {
        seq!['\\', 'r']
    } else if (c as u32) < 0x20 {
        seq!['\\', 'u', '0', '0', hex_digit((c as u32) / 16), hex_digit((c as u32) % 16)]
    } else {
        seq![c]
    }
}

pub open spec fn escape_all(s: Seq<char>) -> Seq<char>
    decreases s.len(),
{
    if s.len() == 0 {
        seq![]
    } else {
        escape_all(s.drop_last()) + escape_char(s.last())
    }
}

/// The JSON string literal for `s`: its characters escaped, between double quotes.
pub open spec fn json_string_of(s: Seq<char>) -> Seq<char> {
    seq!['"'] + escape_all(s) + seq!['"']
}

/// Relies on serde_json's compact writer for a `Value::String`: it writes `"`, each
/// character escaped as `escape_char` says, and `"`.
#[verifier::external_body]
pub(crate) fn json_string(s: &str) -> (r: String)
    ensures
        r@ == json_string_of(s@),
{
    serde_json::Value::String(s.to_owned()).to_string()
}

pub open spec fn bool_json(b: bool) -> Seq<char> {
    if b {
        "true"@
    } else {
        "false"@
    }
}

/// `{"name":..,"arg_type":..,"description":..,"required":..}`
pub open spec fn arg_json(a: ArgSchema) -> Seq<char> {
    "{\"name\":"@ + json_string_of(a.name@) + ",\"arg_type\":"@ + json_string_of(a.arg_type@)
        + ",\"description\":"@ + json_string_of(a.description@) + ",\"required\":"@ + bool_json(
        a.required,
    ) + "}"@
}

/// The arguments' objects, separated by commas.
pub open spec fn args_json(args: Seq<ArgSchema>) -> Seq<char>
    decreases args.len(),
{
    if args.len() == 0 {
        seq![]
    } else if args.len() == 1 {
        arg_json(args[0])
    } else {
        args_json(args.drop_last()) + ","@ + arg_json(args.last())
    }
}

/// `{"name":..,"description":..,"args":[..]}`
pub open spec fn schema_json(name: Seq<char>, description: Seq<char>, args: Seq<ArgSchema>) -> Seq<char> {
    "{\"name\":"@ + json_string_of(name) + ",\"description\":"@ + json_string_of(description)
        + ",\"args\":["@ + args_json(args) + "]}"@
}

impl ArgSchema {
    pub fn to_json(&self) -> (r: String)
        ensures
            r@ == arg_json(*self),
    {
        let mut s = String::from_str("{\"name\":");
        s.append(json_string(self.name.as_str()).as_str());
        s.append(",\"arg_type\":");
        s.append(json_string(self.arg_type.as_str()).as_str());
        s.append(",\"description\":");
        s.append(json_string(self.description.as_str()).as_str());
        s.append(",\"required\":");
        s.append(if self.required { "true" } else { "false" });
        s.append("}");
        s
    }
}

/// The schema of a tool registered under `name`, as the JSON text given to the model.
pub fn render_schema(name: &str, description: &str, args: &Vec<ArgSchema>) -> (r: String)
    ensures
        r@ == schema_json(name@, description@, args@),
{
    let mut body = String::new();
    let mut i: usize = 0;
    while i < args.len()
        invariant
            i <= args.len(),
            body@ == args_json(args@.take(i as int)),
        decreases args.len() - i,
    {
        proof {
            assert(args@.take(i + 1).drop_last() =~= args@.take(i as int));
        }
        if i > 0 {
            body.append(",");
        }
        body.append(args[i].to_json().as_str());
        i = i + 1;
    }
    assert(args@.take(args.len() as int) =~= args@);
    let mut s = String::from_str("{\"name\":");
    s.append(json_string(name).as_str());
    s.append(",\"description\":");
    s.append(json_string(description).as_str());
    s.append(",\"args\":[");
    s.append(body.as_str());
    s.append("]}");
    s
}

impl ToolSchema {
    pub fn to_json(&self) -> (r: String)
        ensures
            r@ == schema_json(self.name@, self.description@, self.args@),
    {
        render_schema(self.name.as_str(), self.description.as_str(), &self.args)
    }
}

} // verus!
