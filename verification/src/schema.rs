//! Serializable command schemas, published to the upstream platform.
//!
//! A [`Schema`] describes one command: its name, description, typed parameter
//! list and, for composite commands, the nested sub-command schemas. Schemas
//! are immutable once built; [`SchemaView`] is their mathematical abstraction,
//! used by every contract that speaks about schemas.

use vstd::prelude::*;

verus! {

/// The type of one command parameter.
#[derive(Clone, Copy, Debug, PartialEq, Eq, Structural)]
pub enum ParamKind {
    IntParam,
    StrParam,
    BoolParam,
    UserParam,
}

/// One typed parameter of a command.
#[derive(Debug, PartialEq, Eq)]
pub struct ParamSchema {
    pub name: String,
    pub desc: String,
    pub kind: ParamKind,
    pub required: bool,
}

/// Abstraction of a [`ParamSchema`].
#[verifier::ext_equal]
pub ghost struct ParamView {
    pub name: Seq<char>,
    pub desc: Seq<char>,
    pub kind: ParamKind,
    pub required: bool,
}

impl View for ParamSchema {
    type V = ParamView;

    open spec fn view(&self) -> ParamView {
        ParamView { name: self.name@, desc: self.desc@, kind: self.kind, required: self.required }
    }
}

/// The schema of one sub-command nested inside a composite command.
#[derive(Debug, PartialEq, Eq)]
pub struct SubSchema {
    pub name: String,
    pub desc: String,
    pub params: Vec<ParamSchema>,
}

/// Abstraction of a [`SubSchema`].
#[verifier::ext_equal]
pub ghost struct SubSchemaView {
    pub name: Seq<char>,
    pub desc: Seq<char>,
    pub params: Seq<ParamView>,
}

impl View for SubSchema {
    type V = SubSchemaView;

    open spec fn view(&self) -> SubSchemaView {
        SubSchemaView {
            name: self.name@,
            desc: self.desc@,
            params: self.params@.map_values(|p: ParamSchema| p@),
        }
    }
}

/// The full schema of one registered command.
#[derive(Debug, PartialEq, Eq)]
pub struct Schema {
    pub name: String,
    pub desc: String,
    pub params: Vec<ParamSchema>,
    pub subs: Vec<SubSchema>,
}

/// Abstraction of a [`Schema`].
#[verifier::ext_equal]
pub ghost struct SchemaView {
    pub name: Seq<char>,
    pub desc: Seq<char>,
    pub params: Seq<ParamView>,
    pub subs: Seq<SubSchemaView>,
}

impl View for Schema {
    type V = SchemaView;

    open spec fn view(&self) -> SchemaView {
        SchemaView {
            name: self.name@,
            desc: self.desc@,
            params: self.params@.map_values(|p: ParamSchema| p@),
            subs: self.subs@.map_values(|s: SubSchema| s@),
        }
    }
}

impl ParamSchema {
    /// Builds one parameter description from literals.
    pub fn new(name: &str, desc: &str, kind: ParamKind, required: bool) -> (p: ParamSchema)
        ensures
            p@ == (ParamView { name: name@, desc: desc@, kind, required }),
    {
        ParamSchema { name: String::from_str(name), desc: String::from_str(desc), kind, required }
    }
}

/// A full schema, flattened into the nested form a composite command embeds.
pub open spec fn spec_as_sub(s: SchemaView) -> SubSchemaView {
    SubSchemaView { name: s.name, desc: s.desc, params: s.params }
}

/// Flattens a command's schema into a sub-schema of a composite command.
pub fn as_sub(s: Schema) -> (r: SubSchema)
    ensures
        r@ == spec_as_sub(s@),
{
    SubSchema { name: s.name, desc: s.desc, params: s.params }
}

impl Clone for ParamSchema {
    fn clone(&self) -> (r: Self)
        ensures
            r == *self,
    {
        ParamSchema {
            name: self.name.clone(),
            desc: self.desc.clone(),
            kind: self.kind,
            required: self.required,
        }
    }
}

impl Clone for SubSchema {
    fn clone(&self) -> (r: Self)
        ensures
            r@ == self@,
    {
        let params = self.params.clone();
        let r = SubSchema { name: self.name.clone(), desc: self.desc.clone(), params };
        proof {
            assert forall|i: int| 0 <= i < r.params@.len() implies r.params@[i]@
                == self.params@[i]@ by {
                assert(cloned(self.params@[i], r.params@[i]));
            }
            assert(r@ =~= self@);
        }
        r
    }
}

impl Clone for Schema {
    fn clone(&self) -> (r: Self)
        ensures
            r@ == self@,
    {
        let params = self.params.clone();
        let subs = self.subs.clone();
        let r = Schema { name: self.name.clone(), desc: self.desc.clone(), params, subs };
        proof {
            assert forall|i: int| 0 <= i < r.params@.len() implies r.params@[i]@
                == self.params@[i]@ by {
                assert(cloned(self.params@[i], r.params@[i]));
            }
            assert forall|i: int| 0 <= i < r.subs@.len() implies r.subs@[i]@
                == self.subs@[i]@ by {
                assert(cloned(self.subs@[i], r.subs@[i]));
            }
            assert(r@ =~= self@);
        }
        r
    }
}

} // verus!
