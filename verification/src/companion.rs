//! The companion type of a record, and the source text that declares it.

use vstd::prelude::*;

use crate::shape::{field_views, Definition, DefinitionView, Field, FieldView, Shape};

verus! {

/// The pieces of the emitted source that are written once per declared field.
#[derive(Clone, Copy, Debug, PartialEq, Eq, Structural)]
pub enum Part {
    /// A field of the companion: the declared name, holding an `Option` of the declared type.
    OptionalField,
    /// The method that records a value for one field and hands the companion back.
    Setter,
    /// The entry of the build method that takes one field or names it as unset.
    BuildEntry,
    /// The entry of the constructor that starts one field empty.
    Initializer,
}

/// The message that names `field` as the one without a value.
pub open spec fn unset_message(field: Seq<char>) -> Seq<char> {
    field + " is not set."@
}

/// The source text of one part, written for one field.
pub open spec fn part_text(part: Part, f: FieldView) -> Seq<char> {
    match part {
        Part::OptionalField => "    "@ + f.name + ": Option<"@ + f.ty + ">,\n"@,
        Part::Setter => "    fn "@ + f.name + "(&mut self, "@ + f.name + ": "@ + f.ty
            + ") -> &mut Self {\n        self."@ + f.name + " = Some("@ + f.name
            + ");\n        self\n    }\n\n"@,
        Part::BuildEntry => "            "@ + f.name + ": self."@ + f.name
            + ".clone().ok_or(concat!(stringify!("@ + f.name + "), \" is not set.\"))?,\n"@,
        Part::Initializer => "            "@ + f.name + ": None,\n"@,
    }
}

/// The source text of one part, written for each field in declaration order.
pub open spec fn each_field(part: Part, fields: Seq<FieldView>) -> Seq<char>
    decreases fields.len(),
{
    if fields.len() == 0 {
        Seq::empty()
    } else {
        each_field(part, fields.drop_last()) + part_text(part, fields.last())
    }
}

/// The companion of a record: the record's name and its fields, in declaration order.
#[derive(Debug)]
pub struct Companion {
    pub record: String,
    pub fields: Vec<Field>,
}

/// What a `Companion` stands for in contracts.
pub struct CompanionView {
    pub record: Seq<char>,
    pub fields: Seq<FieldView>,
}

impl View for Companion {
    type V = CompanionView;

    open spec fn view(&self) -> CompanionView {
        CompanionView { record: self.record@, fields: field_views(self.fields@) }
    }
}

impl CompanionView {
    /// The companion of a definition: it keeps the name and the declared fields.
    pub open spec fn of(def: DefinitionView) -> CompanionView {
        CompanionView { record: def.name, fields: def.fields() }
    }

    /// The name of the companion type: the record's name followed by `Builder`.
    pub open spec fn name(self) -> Seq<char> {
        self.record + "Builder"@
    }

    /// The declaration of the companion type, every field optional.
    pub open spec fn struct_source(self) -> Seq<char> {
        "pub struct "@ + self.name() + " {\n"@ + each_field(Part::OptionalField, self.fields)
            + "}\n"@
    }

    /// The build method: it takes the fields in declaration order and stops at the
    /// first one without a value.
    pub open spec fn build_source(self) -> Seq<char> {
        "    pub fn build(&mut self) -> Result<"@ + self.record
            + ", Box<dyn std::error::Error>> {\n        Ok("@ + self.record + " {\n"@
            + each_field(Part::BuildEntry, self.fields) + "        })\n    }\n"@
    }

    /// The methods of the companion: one setter per field, then the build method.
    pub open spec fn methods_source(self) -> Seq<char> {
        "impl "@ + self.name() + " {\n"@ + each_field(Part::Setter, self.fields)
            + self.build_source() + "}\n"@
    }

    /// The constructor on the record type: a companion with every field empty.
    pub open spec fn constructor_source(self) -> Seq<char> {
        "impl "@ + self.record + " {\n    pub fn builder() -> "@ + self.name() + " {\n        "@
            + self.name() + " {\n"@ + each_field(Part::Initializer, self.fields)
            + "        }\n    }\n}\n"@
    }

    /// Everything that is emitted for the record: the companion type, its methods
    /// and the constructor, separated by empty lines.
    pub open spec fn source(self) -> Seq<char> {
        self.struct_source() + "\n"@ + self.methods_source() + "\n"@ + self.constructor_source()
    }
}

/// Appends the text of one part for one field.
fn push_part(out: &mut String, part: Part, f: &Field)
    ensures
        final(out)@ == old(out)@ + part_text(part, f@),
{
    let name = f.name.as_str();
    let ty = f.ty.as_str();
    match part {
        Part::OptionalField => {
            out.append("    ");
            out.append(name);
            out.append(": Option<");
            out.append(ty);
            out.append(">,\n");
            assert(out@ =~= old(out)@ + part_text(part, f@));
        },
        Part::Setter => {
            out.append("    fn ");
            out.append(name);
            out.append("(&mut self, ");
            out.append(name);
            out.append(": ");
            out.append(ty);
            out.append(") -> &mut Self {\n        self.");
            out.append(name);
            out.append(" = Some(");
            out.append(name);
            out.append(");\n        self\n    }\n\n");
            assert(out@ =~= old(out)@ + part_text(part, f@));
        },
        Part::BuildEntry => {
            out.append("            ");
            out.append(name);
            out.append(": self.");
            out.append(name);
            out.append(".clone().ok_or(concat!(stringify!(");
            out.append(name);
            out.append("), \" is not set.\"))?,\n");
            assert(out@ =~= old(out)@ + part_text(part, f@));
        },
        Part::Initializer => {
            out.append("            ");
            out.append(name);
            out.append(": None,\n");
            assert(out@ =~= old(out)@ + part_text(part, f@));
        },
    }
}

/// Appends the text of one part for each field, in declaration order.
fn push_each_field(out: &mut String, part: Part, fields: &Vec<Field>)
    ensures
        final(out)@ == old(out)@ + each_field(part, field_views(fields@)),
{
    let mut i: usize = 0;
    while i < fields.len()
        invariant
            i <= fields.len(),
            out@ == old(out)@ + each_field(part, field_views(fields@).take(i as int)),
        decreases fields.len() - i,
    {
        proof {
            let all = field_views(fields@);
            assert(all.take(i + 1).drop_last() =~= all.take(i as int));
            assert(all.take(i + 1).last() == fields@[i as int]@);
        }
        push_part(out, part, &fields[i]);
        i += 1;
        assert(out@ =~= old(out)@ + each_field(part, field_views(fields@).take(i as int)));
    }
    assert(field_views(fields@).take(i as int) =~= field_views(fields@));
}

impl Companion {
    /// The companion of a definition with named fields.
    pub fn of(def: Definition) -> (c: Companion)
        requires
            def@.supported(),
        ensures
            c@ == CompanionView::of(def@),
    {
        let Definition { name, shape } = def;
        let fields = match shape {
            Shape::Named(fields) => fields,
            _ => Vec::new(),
        };
        Companion { record: name, fields }
    }

    /// The name of the companion type.
    pub fn name(&self) -> (s: String)
        ensures
            s@ == self@.name(),
    {
        let mut s = String::new();
        s.append(self.record.as_str());
        s.append("Builder");
        assert(s@ =~= self@.name());
        s
    }

    /// Emits the declaration of the companion type.
    pub fn struct_source(&self) -> (s: String)
        ensures
            s@ == self@.struct_source(),
    {
        let name = self.name();
        let mut s = String::new();
        s.append("pub struct ");
        s.append(name.as_str());
        s.append(" {\n");
        push_each_field(&mut s, Part::OptionalField, &self.fields);
        s.append("}\n");
        assert(s@ =~= self@.struct_source());
        s
    }

    /// Emits the build method.
    pub fn build_source(&self) -> (s: String)
        ensures
            s@ == self@.build_source(),
    {
        let record = self.record.as_str();
        let mut s = String::new();
        s.append("    pub fn build(&mut self) -> Result<");
        s.append(record);
        s.append(", Box<dyn std::error::Error>> {\n        Ok(");
        s.append(record);
        s.append(" {\n");
        push_each_field(&mut s, Part::BuildEntry, &self.fields);
        s.append("        })\n    }\n");
        assert(s@ =~= self@.build_source());
        s
    }

    /// Emits the methods of the companion: the setters, then the build method.
    pub fn methods_source(&self) -> (s: String)
        ensures
            s@ == self@.methods_source(),
    {
        let name = self.name();
        let build = self.build_source();
        let mut s = String::new();
        s.append("impl ");
        s.append(name.as_str());
        s.append(" {\n");
        push_each_field(&mut s, Part::Setter, &self.fields);
        s.append(build.as_str());
        s.append("}\n");
        assert(s@ =~= self@.methods_source());
        s
    }

    /// Emits the constructor on the record type.
    pub fn constructor_source(&self) -> (s: String)
        ensures
            s@ == self@.constructor_source(),
    {
        let name = self.name();
        let mut s = String::new();
        s.append("impl ");
        s.append(self.record.as_str());
        s.append(" {\n    pub fn builder() -> ");
        s.append(name.as_str());
        s.append(" {\n        ");
        s.append(name.as_str());
        s.append(" {\n");
        push_each_field(&mut s, Part::Initializer, &self.fields);
        s.append("        }\n    }\n}\n");
        assert(s@ =~= self@.constructor_source());
        s
    }

    /// Emits everything: the companion type, its methods and the constructor.
    pub fn source(&self) -> (s: String)
        ensures
            s@ == self@.source(),
    {
        let methods = self.methods_source();
        let constructor = self.constructor_source();
        let mut s = self.struct_source();
        s.append("\n");
        s.append(methods.as_str());
        s.append("\n");
        s.append(constructor.as_str());
        s
    }
}

} // verus!
