//! Building a tool's definition from a plain function's signature and its attribute:
//! the tool's name, its description, one argument per parameter, and the names of the
//! types that carry the parameters and the tool.

use vstd::prelude::*;
use crate::tools::naming::{infer_json_type, json_type_of, pascal_case, pascal_case_of};
use crate::tools::schema::{ArgSchema, ToolSchema};

verus! {

/// One parameter of the tool function: its name, and the name of its type's last path
/// segment (`None` where the type is not a path).
#[derive(Debug)]
pub struct FnParam {
    pub name: String,
    pub type_ident: Option<String>,
}

/// Why a function cannot become a tool.
#[derive(Debug)]
pub enum DescriptorError {
    /// The attribute gives no description.
    MissingDescription,
    /// A documented parameter is not a parameter of the function.
    UnknownParam(String),
    /// A parameter has no description, or an empty one.
    MissingParamDescription(String),
}

/// A `DescriptorError` in the terms of its text.
pub enum DescriptorFault {
    MissingDescription,
    UnknownParam(Seq<char>),
    MissingParamDescription(Seq<char>),
}

impl View for DescriptorError {
    type V = DescriptorFault;

    open spec fn view(&self) -> DescriptorFault {
        match self {
            DescriptorError::MissingDescription => DescriptorFault::MissingDescription,
            DescriptorError::UnknownParam(n) => DescriptorFault::UnknownParam(n@),
            DescriptorError::MissingParamDescription(n) => DescriptorFault::MissingParamDescription(n@),
        }
    }
}

/// A tool made from a function: its schema, and the names of its parameter and tool types.
#[derive(Debug)]
pub struct ToolDefinition {
    pub schema: ToolSchema,
    pub params_struct: String,
    pub tool_struct: String,
}

pub open spec fn is_first_doc(docs: Seq<(String, String)>, key: Seq<char>, i: int) -> bool {
    &&& 0 <= i < docs.len()
    &&& docs[i].0@ == key
    &&& forall|j: int| 0 <= j < i ==> docs[j].0@ != key
}

/// The description given for parameter `key`: the first one given, empty where none is.
pub open spec fn doc_of(docs: Seq<(String, String)>, key: Seq<char>) -> Seq<char> {
    if exists|i: int| is_first_doc(docs, key, i) {
        docs[choose|i: int| is_first_doc(docs, key, i)].1@
    } else {
        seq![]
    }
}

pub open spec fn has_param(params: Seq<FnParam>, key: Seq<char>) -> bool {
    exists|j: int| 0 <= j < params.len() && params[j].name@ == key
}

/// The first documented name that is no parameter sits at `i`.
pub open spec fn is_first_unknown(docs: Seq<(String, String)>, params: Seq<FnParam>, i: int) -> bool {
    &&& 0 <= i < docs.len()
    &&& !has_param(params, docs[i].0@)
    &&& forall|k: int| 0 <= k < i ==> has_param(params, #[trigger] docs[k].0@)
}

/// The first parameter without a description sits at `j`.
pub open spec fn is_first_undocumented(docs: Seq<(String, String)>, params: Seq<FnParam>, j: int) -> bool {
    &&& 0 <= j < params.len()
    &&& doc_of(docs, params[j].name@).len() == 0
    &&& forall|k: int| 0 <= k < j ==> doc_of(docs, (#[trigger] params[k]).name@).len() > 0
}

/// What keeps a function from becoming a tool, checked in this order: no description;
/// the first documented name that is no parameter; the first parameter left undocumented.
pub open spec fn definition_fault(description: Option<Seq<char>>, docs: Seq<(String, String)>, params: Seq<FnParam>) -> Option<DescriptorFault> {
    if description is None {
        Some(DescriptorFault::MissingDescription)
    } else if exists|i: int| is_first_unknown(docs, params, i) {
        Some(DescriptorFault::UnknownParam(docs[choose|i: int| is_first_unknown(docs, params, i)].0@))
    } else if exists|j: int| is_first_undocumented(docs, params, j) {
        Some(DescriptorFault::MissingParamDescription(params[choose|j: int| is_first_undocumented(docs, params, j)].name@))
    } else {
        None
    }
}

pub open spec fn type_ident_view(p: FnParam) -> Option<Seq<char>> {
    match p.type_ident {
        Some(t) => Some(t@),
        None => None,
    }
}

/// The argument made from parameter `p`: its name, JSON type and description; required.
pub open spec fn arg_agrees(a: ArgSchema, p: FnParam, docs: Seq<(String, String)>) -> bool {
    &&& a.name@ == p.name@
    &&& a.arg_type@ == json_type_of(type_ident_view(p))
    &&& a.description@ == doc_of(docs, p.name@)
    &&& a.required
}

proof fn lemma_first_doc_unique(docs: Seq<(String, String)>, key: Seq<char>, a: int, b: int)
    requires
        is_first_doc(docs, key, a),
        is_first_doc(docs, key, b),
    ensures
        a == b,
{
    if a < b {
        assert(docs[a].0@ != key);
    }
    if b < a {
        assert(docs[b].0@ != key);
    }
}

/// The description documented for parameter `key`, empty where there is none.
fn find_doc(docs: &Vec<(String, String)>, key: &String) -> (r: String)
    ensures
        r@ == doc_of(docs@, key@),
{
    let mut i: usize = 0;
    while i < docs.len()
        invariant
            i <= docs@.len(),
            forall|j: int| 0 <= j < i ==> docs@[j].0@ != key@,
        decreases docs@.len() - i,
    {
        if docs[i].0 == *key {
            proof {
                assert(is_first_doc(docs@, key@, i as int));
                let c = choose|c: int| is_first_doc(docs@, key@, c);
                lemma_first_doc_unique(docs@, key@, c, i as int);
            }
            return docs[i].1.clone();
        }
        i = i + 1;
    }
    String::new()
}

/// Whether a parameter is named `key`.
fn find_param(params: &Vec<FnParam>, key: &String) -> (r: bool)
    ensures
        r == has_param(params@, key@),
{
    let mut j: usize = 0;
    while j < params.len()
        invariant
            j <= params@.len(),
            forall|k: int| 0 <= k < j ==> params@[k].name@ != key@,
        decreases params@.len() - j,
    {
        if params[j].name == *key {
            return true;
        }
        j = j + 1;
    }
    false
}

/// The tool made from function `fn_name` with the given parameters, named `name_override`
/// where given, described by `description`, its parameters documented by `param_docs`.
pub fn tool_definition(
    fn_name: &str,
    name_override: Option<&str>,
    description: Option<&str>,
    param_docs: &Vec<(String, String)>,
    params: &Vec<FnParam>,
) -> (r: Result<ToolDefinition, DescriptorError>)
    ensures
        match r {
            Ok(d) => {
                &&& definition_fault(
                    match description {
                        Some(t) => Some(t@),
                        None => None,
                    },
                    param_docs@,
                    params@,
                ) is None
                &&& d.schema.name@ == match name_override {
                    Some(n) => n@,
                    None => fn_name@,
                }
                &&& description matches Some(t) && d.schema.description@ == t@
                &&& d.schema.args@.len() == params@.len()
                &&& forall|j: int|
                    0 <= j < params@.len() ==> arg_agrees(
                        #[trigger] d.schema.args@[j],
                        params@[j],
                        param_docs@,
                    )
                &&& d.params_struct@ == pascal_case_of(fn_name@) + "Params"@
                &&& d.tool_struct@ == pascal_case_of(fn_name@) + "Tool"@
            },
            Err(e) => definition_fault(
                match description {
                    Some(t) => Some(t@),
                    None => None,
                },
                param_docs@,
                params@,
            ) == Some(e@),
        },
{
    let ghost dv: Option<Seq<char>> = match description {
        Some(t) => Some(t@),
        None => None,
    };
    let desc = match description {
        Some(d) => d,
        None => {
            return Err(DescriptorError::MissingDescription);
        },
    };
    assert(dv is Some);
    let mut i: usize = 0;
    while i < param_docs.len()
        invariant
            dv is Some,
            dv == (match description {
                Some(t) => Some(t@),
                None => None::<Seq<char>>,
            }),
            i <= param_docs@.len(),
            forall|k: int| 0 <= k < i ==> has_param(params@, #[trigger] param_docs@[k].0@),
        decreases param_docs@.len() - i,
    {
        if !find_param(params, &param_docs[i].0) {
            proof {
                assert(is_first_unknown(param_docs@, params@, i as int));
                let c = choose|c: int| is_first_unknown(param_docs@, params@, c);
                if c < i {
                    assert(has_param(params@, param_docs@[c].0@));
                }
                if i < c {
                    assert(has_param(params@, param_docs@[i as int].0@));
                }
                assert(definition_fault(dv, param_docs@, params@) == Some(
                    DescriptorFault::UnknownParam(param_docs@[i as int].0@),
                ));
            }
            return Err(DescriptorError::UnknownParam(param_docs[i].0.clone()));
        }
        i = i + 1;
    }
    let mut args: Vec<ArgSchema> = Vec::new();
    let mut j: usize = 0;
    while j < params.len()
        invariant
            dv is Some,
            dv == (match description {
                Some(t) => Some(t@),
                None => None::<Seq<char>>,
            }),
            j <= params@.len(),
            forall|k: int| 0 <= k < param_docs@.len() ==> has_param(params@, #[trigger] param_docs@[k].0@),
            args@.len() == j,
            forall|k: int| 0 <= k < j ==> arg_agrees(#[trigger] args@[k], params@[k], param_docs@),
            forall|k: int| 0 <= k < j ==> doc_of(param_docs@, (#[trigger] params@[k]).name@).len() > 0,
        decreases params@.len() - j,
    {
        let p = &params[j];
        let doc = find_doc(param_docs, &p.name);
        if doc.unicode_len() == 0 {
            proof {
                assert(!exists|x: int| is_first_unknown(param_docs@, params@, x));
                assert(is_first_undocumented(param_docs@, params@, j as int));
                let c = choose|c: int| is_first_undocumented(param_docs@, params@, c);
                if c < j {
                    assert(doc_of(param_docs@, params@[c].name@).len() > 0);
                }
                if j < c {
                    assert(doc_of(param_docs@, params@[j as int].name@).len() > 0);
                }
                assert(definition_fault(dv, param_docs@, params@) == Some(
                    DescriptorFault::MissingParamDescription(params@[j as int].name@),
                ));
            }
            return Err(DescriptorError::MissingParamDescription(p.name.clone()));
        }
        let ident = match &p.type_ident {
            Some(t) => Some(t.as_str()),
            None => None,
        };
        let arg = ArgSchema {
            name: p.name.clone(),
            arg_type: String::from_str(infer_json_type(ident)),
            description: doc,
            required: true,
        };
        let ghost prev = args@;
        args.push(arg);
        assert(forall|k: int| 0 <= k < j ==> args@[k] == prev[k]);
        j = j + 1;
    }
    proof {
        assert(!exists|x: int| is_first_unknown(param_docs@, params@, x));
        assert(!exists|x: int| is_first_undocumented(param_docs@, params@, x));
    }
    let name = match name_override {
        Some(n) => String::from_str(n),
        None => String::from_str(fn_name),
    };
    let base = pascal_case(fn_name);
    let params_struct = base.clone().concat("Params");
    let tool_struct = base.concat("Tool");
    Ok(ToolDefinition {
        schema: ToolSchema { name, description: String::from_str(desc), args },
        params_struct,
        tool_struct,
    })
}

} // verus!
