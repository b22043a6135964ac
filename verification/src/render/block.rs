//! Render combinatory blocks.
//!
//! Render blocks are logical rendering units that have inputs and outputs. Inputs can represent
//! vertex attributes, user-specified values, built-ins or previous blocks’ outputs.

use vstd::prelude::*;
use vstd::string::StringExecFns;

use crate::render::input::{Input, IntoName};
use crate::render::output::Output;
use crate::render::shader::ast::{ExternalDeclaration, Identifier, TypeName};

verus! {

/// A render block, allowing for combining blocks in order to create more complex rendering
/// computations.
#[derive(Debug, PartialEq)]
pub struct Block {
    /// Unique identifier of the block. Used to get mangled names for structures and functions.
    pub id: String,
    /// List of inputs that compose the public interface of the block.
    pub inputs: Vec<Input>,
    /// List of outputs that compose the public interface of the block.
    pub outputs: Vec<Output>,
    /// Actual transformation code of the block.
    pub code: Vec<ExternalDeclaration>,
}

impl Block {
    /// Create a new block out of inputs, outputs and GLSL code.
    pub fn new<N: IntoName>(
        id: N,
        inputs: Vec<Input>,
        outputs: Vec<Output>,
        code: Vec<ExternalDeclaration>,
    ) -> (res: Self)
        ensures
            res.id@ == id.name_view(),
            res.inputs == inputs,
            res.outputs == outputs,
            res.code == code,
    {
        Block { id: id.into_name(), inputs, outputs, code }
    }
}

/// What a visitor does after visiting a node.
#[derive(Clone, Copy, Debug, PartialEq, Eq, Structural)]
pub enum Visit {
    /// Visit the children of the node.
    Children,
    /// Go back to the parent of the node.
    Parent,
}

/// Whether a character may stand in a GLSL identifier.
pub open spec fn is_ident_char(c: char) -> bool {
    ('a' <= c && c <= 'z') || ('A' <= c && c <= 'Z') || ('0' <= c && c <= '9') || c == '_'
}

/// Whether every character of `s` may stand in a GLSL identifier.
pub open spec fn ident_chars(s: Seq<char>) -> bool {
    forall|i: int| 0 <= i < s.len() ==> is_ident_char(#[trigger] s[i])
}

/// The mangled form of a type name: `In` and `Out` get the block identifier `id` appended
/// after an underscore; other names are kept.
pub open spec fn mangled_type_name(name: Seq<char>, id: Seq<char>) -> Seq<char> {
    if name == "In"@ {
        "In_"@ + id
    } else if name == "Out"@ {
        "Out_"@ + id
    } else {
        name
    }
}

/// The mangled form of an identifier: `In`, `Out` and `call` get the block identifier `id`
/// appended after an underscore; other identifiers are kept.
pub open spec fn mangled_identifier(name: Seq<char>, id: Seq<char>) -> Seq<char> {
    if name == "call"@ {
        "call_"@ + id
    } else {
        mangled_type_name(name, id)
    }
}

/// AST visitor that mangles type names and function calls.
///
/// This works by appending a unique ID to names to replace. Replacements occur for:
///
///   - All intermediates structures, constants and functions, that reference `In`, `Out` or
///     `call`.
///   - The *input* and *output* structures, renamed as:
///     - `In` becomes `In_<blockid>`. For instance, the block with ID `"Blur"` has its input type
///        going from `In` to `In_Blur`.
///     - `Out` becomes `Out_<blockid>`. For instance, the block with ID `"Blur"` has its output
///        type going from `Out` to `Out_Blur`.
///     - The function named `call` is searched for in the *code* part of the block and renamed
///       `call_<blockid>`. For instance, the block with ID `"Blur"` has its `call` function
///       renamed `call_Blur`.
///   - All references to `In`, `Out` and `call` are replaced with the appropriate new name.
pub struct Mangler<'a> {
    pub id: &'a str,
}

impl<'a> Mangler<'a> {
    /// A mangler appending the block identifier `id`.
    pub fn new(id: &'a str) -> (res: Self)
        ensures
            res.id@ == id@,
    {
        Mangler { id }
    }

    fn suffixed(&self, base: &str) -> (res: String)
        ensures
            res@ == base@ + "_"@ + self.id@,
    {
        let mut s = String::from_str(base);
        s.append("_");
        s.append(self.id);
        s
    }

    /// Mangle a type name.
    ///
    /// The mangled name must be a GLSL identifier, so the identifier of the block must be made
    /// of ASCII letters, digits and underscores when the type name is `In` or `Out`.
    pub fn visit_type_name(&mut self, name: &mut TypeName) -> (res: Visit)
        requires
            (old(name)@ == "In"@ || old(name)@ == "Out"@) ==> ident_chars(old(self).id@),
        ensures
            final(name)@ == mangled_type_name(old(name)@, old(self).id@),
            final(self).id == old(self).id,
            res == Visit::Parent,
    {
        proof {
            reveal_strlit("In");
            reveal_strlit("Out");
            reveal_strlit("In_");
            reveal_strlit("Out_");
            reveal_strlit("_");
        }
        if name.0 == String::from_str("In") {
            *name = TypeName(self.suffixed("In"));
        } else if name.0 == String::from_str("Out") {
            *name = TypeName(self.suffixed("Out"));
        }
        Visit::Parent
    }

    /// Mangle an identifier.
    ///
    /// The mangled name must be a GLSL identifier, so the identifier of the block must be made
    /// of ASCII letters, digits and underscores when the identifier is `In`, `Out` or `call`.
    pub fn visit_identifier(&mut self, identifier: &mut Identifier) -> (res: Visit)
        requires
            (old(identifier)@ == "In"@ || old(identifier)@ == "Out"@ || old(identifier)@
                == "call"@) ==> ident_chars(old(self).id@),
        ensures
            final(identifier)@ == mangled_identifier(old(identifier)@, old(self).id@),
            final(self).id == old(self).id,
            res == Visit::Parent,
    {
        proof {
            reveal_strlit("In");
            reveal_strlit("Out");
            reveal_strlit("call");
            reveal_strlit("In_");
            reveal_strlit("Out_");
            reveal_strlit("call_");
            reveal_strlit("_");
        }
        if identifier.0 == String::from_str("In") {
            *identifier = Identifier(self.suffixed("In"));
        } else if identifier.0 == String::from_str("Out") {
            *identifier = Identifier(self.suffixed("Out"));
        } else if identifier.0 == String::from_str("call") {
            *identifier = Identifier(self.suffixed("call"));
        }
        Visit::Parent
    }
}

/// Mangling a name twice with the same block identifier gives what mangling it once gives: a
/// mangled name is never `In`, `Out` or `call` again.
pub proof fn lemma_mangling_idempotent(name: Seq<char>, id: Seq<char>)
    ensures
        mangled_type_name(mangled_type_name(name, id), id) == mangled_type_name(name, id),
        mangled_identifier(mangled_identifier(name, id), id) == mangled_identifier(name, id),
{
    reveal_strlit("In");
    reveal_strlit("Out");
    reveal_strlit("call");
    reveal_strlit("In_");
    reveal_strlit("Out_");
    reveal_strlit("call_");
    let ti = mangled_type_name(name, id);
    let ii = mangled_identifier(name, id);
    if name == "In"@ || name == "Out"@ || name == "call"@ {
        assert(ti.len() >= 2 && ii.len() >= 3);
        assert(ti != "In"@ && ti != "Out"@) by {
            if name == "In"@ {
                assert(ti.len() == 3 + id.len());
                assert(ti[2] == '_');
            } else if name == "Out"@ {
                assert(ti[3] == '_');
            }
        }
        assert("In"@.len() == 2 && "Out"@.len() == 3 && "call"@.len() == 4);
        if name == "In"@ {
            assert(name != "call"@);
            assert(ii == ti);
        } else if name == "Out"@ {
            assert(name != "call"@);
            assert(ii == ti);
            assert(ii[3] == '_');
        } else {
            assert(ii[4] == '_');
            assert(ii.len() == 5 + id.len());
        }
        assert(ii != "In"@ && ii != "Out"@ && ii != "call"@);
    }
}

} // verus!
