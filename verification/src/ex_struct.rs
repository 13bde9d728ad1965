//! Elixir structs: maps with the name of their module under `__struct__`.
//!
//! A Rust struct can stand for an Elixir struct: it is decoded from and
//! encoded to a map that holds the module's name and one entry for each
//! field, under the atom of the field's name. This module decides which
//! declarations can be given such a transcoder, and it reads and builds the
//! maps.

use vstd::prelude::*;
use crate::atom::{get_atom_init, NifAtom};
use crate::map::{found_or_badarg, map_new};
use crate::tuple::terms_view;
use crate::wrapper::check::{is_atom, is_yes};
use crate::wrapper::nif_interface::{c_int, NifInterface, NIF_TERM};
use crate::wrapper::term_of_reply;
use crate::{NifEnv, NifError, NifResult, NifTerm};

verus! {

/// An argument of an attribute, as far as a transcoder reads it.
pub enum MetaItem {
    /// A bare word, as `derive` in `#[derive]`.
    Word(String),
    /// A name with a list of arguments, as `ExStruct(module = "M")`.
    List(String, Vec<MetaItem>),
    /// A name with a string value, as `module = "M"`.
    NameValue(String, String),
}

impl MetaItem {
    /// The name that the item starts with.
    pub open spec fn spec_name(self) -> Seq<char> {
        match self {
            MetaItem::Word(name) => name@,
            MetaItem::List(name, _) => name@,
            MetaItem::NameValue(name, _) => name@,
        }
    }

    /// The string value of the item, which only a name-value pair has.
    pub open spec fn spec_value_str(self) -> Option<Seq<char>> {
        match self {
            MetaItem::NameValue(_, value) => Some(value@),
            _ => None,
        }
    }

    /// Whether the item gives the parameter `name` a string value.
    pub open spec fn gives(self, name: Seq<char>) -> bool {
        self.spec_name() == name && self.spec_value_str() is Some
    }

    pub fn name(&self) -> (name: &String)
        ensures
            name@ == self.spec_name(),
    {
        match self {
            MetaItem::Word(name) => name,
            MetaItem::List(name, _) => name,
            MetaItem::NameValue(name, _) => name,
        }
    }

    pub fn value_str(&self) -> (value: Option<&String>)
        ensures
            value is Some == self.spec_value_str() is Some,
            value matches Some(v) ==> Some(v@) == self.spec_value_str(),
    {
        match self {
            MetaItem::NameValue(_, value) => Some(value),
            _ => None,
        }
    }
}

/// The arguments of `meta_item`, where it is a list; none otherwise.
pub open spec fn arguments_of(meta_item: MetaItem) -> Seq<MetaItem> {
    match meta_item {
        MetaItem::List(_, items) => items@,
        _ => Seq::empty(),
    }
}

/// The string value of the first of `items` that gives `name` one.
pub open spec fn first_value(items: Seq<MetaItem>, name: Seq<char>) -> Option<Seq<char>>
    decreases items.len(),
{
    if items.len() == 0 {
        None
    } else if items[0].gives(name) {
        items[0].spec_value_str()
    } else {
        first_value(items.skip(1), name)
    }
}

/// The value of the parameter `name` in `meta_item`: the string value of
/// the first argument that gives `name` one. There is none where
/// `meta_item` is no list or no argument gives `name` a value.
pub open spec fn parameter(meta_item: MetaItem, name: Seq<char>) -> Option<Seq<char>> {
    first_value(arguments_of(meta_item), name)
}

/// The view of an optional string.
pub open spec fn text_of(value: Option<String>) -> Option<Seq<char>> {
    match value {
        Some(v) => Some(v@),
        None => None,
    }
}

/// The value of the parameter `name` in `meta_item`; see [`parameter`].
pub fn get_meta_item_value(meta_item: &MetaItem, name: &String) -> (value: Option<String>)
    ensures
        text_of(value) == parameter(*meta_item, name@),
{
    match meta_item {
        MetaItem::List(_, items) => {
            let mut i: usize = 0;
            proof {
                assert(items@.skip(0) == items@);
            }
            while i < items.len()
                invariant
                    i <= items.len(),
                    items@ == arguments_of(*meta_item),
                    first_value(items@, name@) == first_value(items@.skip(i as int), name@),
                decreases items.len() - i,
            {
                let item = &items[i];
                proof {
                    assert(items@.skip(i as int).skip(1) == items@.skip(i + 1));
                }
                if *item.name() == *name {
                    match item.value_str() {
                        Some(value) => {
                            return Some(value.clone());
                        },
                        None => (),
                    }
                }
                i += 1;
            }
            None
        },
        _ => None,
    }
}

/// A field of a struct declaration: its name, if it has one.
pub struct StructField {
    pub ident: Option<String>,
}

/// What an attribute is put on.
pub enum Annotatable {
    /// A struct with a body in braces: the number of its lifetime
    /// parameters, and its fields.
    Struct { lifetimes: usize, fields: Vec<StructField> },
    /// Anything else: another kind of struct, another item, or no item.
    Other,
}

/// Why a declaration cannot be given a transcoder.
#[derive(Clone, Copy, Debug, PartialEq, Eq, Structural)]
pub enum TranscoderError {
    NoModule,
    ManyLifetimes,
    TupleStruct,
    NotAStruct,
}

impl TranscoderError {
    /// The text shown to the author of the declaration.
    pub open spec fn text(self) -> &'static str {
        match self {
            TranscoderError::NoModule => "attribute must have module parameter",
            TranscoderError::ManyLifetimes => "struct can only have one lifetime argument",
            TranscoderError::TupleStruct => {
                "a tuple struct can't be converted to a elixir struct"
            },
            TranscoderError::NotAStruct => "must decorate a struct",
        }
    }

    /// The text shown to the author of the declaration.
    pub fn message(&self) -> (text: &'static str)
        ensures
            text == self.text(),
    {
        match self {
            TranscoderError::NoModule => "attribute must have module parameter",
            TranscoderError::ManyLifetimes => "struct can only have one lifetime argument",
            TranscoderError::TupleStruct => {
                "a tuple struct can't be converted to a elixir struct"
            },
            TranscoderError::NotAStruct => "must decorate a struct",
        }
    }
}

/// What the decoder and the encoder of a struct are made from.
pub struct Transcoder {
    /// The name of the Elixir module that the struct stands for.
    pub module: String,
    /// The names of the fields, in the order of the declaration.
    pub fields: Vec<String>,
    /// Whether the struct has a lifetime parameter.
    pub has_lifetime: bool,
}

/// The names of `fields`, in order, where each has one.
pub open spec fn names_of(fields: Seq<StructField>) -> Seq<Seq<char>> {
    fields.map_values(|field: StructField| field.ident->0@)
}

/// The names of `names`, in order.
pub open spec fn texts_of(names: Seq<String>) -> Seq<Seq<char>> {
    names.map_values(|name: String| name@)
}

/// Whether every one of `fields` has a name.
pub open spec fn all_named(fields: Seq<StructField>) -> bool {
    forall|i: int| 0 <= i < fields.len() ==> (#[trigger] fields[i]).ident is Some
}

/// What [`transcoder_decorator`] decides for an attribute whose module
/// parameter is `module`, put on `annotatable`. The reasons to refuse are
/// tried in this order: no module parameter; not a struct with a body in
/// braces; more than one lifetime parameter; a field without a name.
pub open spec fn decided(module: Option<Seq<char>>, annotatable: Annotatable) -> Result<
    (Seq<char>, Seq<Seq<char>>, bool),
    TranscoderError,
> {
    match module {
        None => Err(TranscoderError::NoModule),
        Some(module) => match annotatable {
            Annotatable::Struct { lifetimes, fields } => {
                if lifetimes > 1 {
                    Err(TranscoderError::ManyLifetimes)
                } else if !all_named(fields@) {
                    Err(TranscoderError::TupleStruct)
                } else {
                    Ok((module, names_of(fields@), lifetimes == 1))
                }
            },
            Annotatable::Other => Err(TranscoderError::NotAStruct),
        },
    }
}

/// The view of what [`transcoder_decorator`] returns.
pub open spec fn decision_view(r: Result<Transcoder, TranscoderError>) -> Result<
    (Seq<char>, Seq<Seq<char>>, bool),
    TranscoderError,
> {
    match r {
        Ok(t) => Ok((t.module@, texts_of(t.fields@), t.has_lifetime)),
        Err(e) => Err(e),
    }
}

/// The names of `fields`, or nothing where one of them has no name.
pub fn field_names(fields: &Vec<StructField>) -> (names: Option<Vec<String>>)
    ensures
        names is Some == all_named(fields@),
        names matches Some(n) ==> texts_of(n@) == names_of(fields@),
{
    let mut names: Vec<String> = Vec::new();
    let mut i: usize = 0;
    while i < fields.len()
        invariant
            i <= fields.len(),
            names@.len() == i,
            all_named(fields@.take(i as int)),
            texts_of(names@) == names_of(fields@.take(i as int)),
        decreases fields.len() - i,
    {
        match &fields[i].ident {
            Some(name) => {
                let ghost before = names@;
                names.push(name.clone());
                proof {
                    assert(names_of(fields@.take(i + 1)) =~= names_of(fields@.take(i as int)).push(
                        name@,
                    ));
                }
            },
            None => {
                return None;
            },
        }
        i += 1;
    }
    proof {
        assert(fields@.take(fields@.len() as int) == fields@);
    }
    Some(names)
}

/// Decides whether the declaration `annotatable` can be given a transcoder
/// by the attribute `meta_item`, and what the transcoder is made from.
pub fn transcoder_decorator(meta_item: &MetaItem, annotatable: &Annotatable) -> (r: Result<
    Transcoder,
    TranscoderError,
>)
    ensures
        decision_view(r) == decided(parameter(*meta_item, "module"@), *annotatable),
{
    let name = String::from_str("module");
    let found = get_meta_item_value(meta_item, &name);
    let ex_module_name = match found {
        Some(value) => value,
        None => {
            return Err(TranscoderError::NoModule);
        },
    };

    match annotatable {
        Annotatable::Struct { lifetimes, fields } => {
            if *lifetimes > 1 {
                return Err(TranscoderError::ManyLifetimes);
            }
            let has_lifetime = *lifetimes == 1;
            match field_names(fields) {
                Some(names) => Ok(
                    Transcoder {
                        module: ex_module_name,
                        fields: names,
                        has_lifetime: has_lifetime,
                    },
                ),
                None => Err(TranscoderError::TupleStruct),
            }
        },
        Annotatable::Other => Err(TranscoderError::NotAStruct),
    }
}

/// Whether `reply` is an answer of the VM to the request for the value in
/// `map` under the atom named `name`: to make the atom, and then to look it
/// up.
pub open spec fn looked_up<V: NifInterface>(
    vm: &V,
    env: NifEnv,
    map: NIF_TERM,
    name: &str,
    reply: (c_int, NIF_TERM),
) -> bool {
    exists|key: NIF_TERM|
        #[trigger] call_ensures(V::enif_make_atom_len, (vm, env.handle(), name), key)
            && call_ensures(V::enif_get_map_value, (vm, env.handle(), map, key), reply)
}

/// The value of the field `name` of `map`: what the VM finds under the atom
/// of that name, or `BadArg` where it finds nothing.
pub fn get_field<'a, V: NifInterface>(vm: &V, map: NifTerm<'a>, name: &str) -> (r: NifResult<
    NifTerm<'a>,
    V,
>)
    ensures
        exists|reply: (c_int, NIF_TERM)|
            #[trigger] looked_up(vm, map.env, map.term.0, name, reply) && r == found_or_badarg::<V>(
                map.env,
                term_of_reply(reply),
            ),
{
    let env = map.get_env();
    let key = get_atom_init(vm, env, name).to_term(env);
    let r = map.map_get(vm, key);
    proof {
        let reply = choose|reply: (c_int, NIF_TERM)|
            #[trigger] call_ensures(
                V::enif_get_map_value,
                (vm, map.env.handle(), map.term.0, key.term.0),
                reply,
            ) && r == found_or_badarg::<V>(map.env, term_of_reply(reply));
        assert(looked_up(vm, map.env, map.term.0, name, reply));
    }
    r
}

/// Whether `name` is what [`get_ex_struct_name`] may return for `map`: the
/// term that the VM finds under `__struct__`, where it finds one and says
/// that it is an atom, and nothing otherwise.
pub open spec fn names_struct<V: NifInterface>(vm: &V, map: NifTerm, name: Option<NifAtom>) -> bool {
    exists|reply: (c_int, NIF_TERM)|
        {
            &&& #[trigger] looked_up(vm, map.env, map.term.0, "__struct__", reply)
            &&& reply.0 != 1 ==> name is None
            &&& reply.0 == 1 ==> exists|status: c_int|
                {
                    &&& #[trigger] call_ensures(
                        V::enif_is_atom,
                        (vm, map.env.handle(), reply.1),
                        status,
                    )
                    &&& name == if is_yes(status) {
                        Some(NifAtom { term: reply.1 })
                    } else {
                        None
                    }
                }
        }
}

/// The name of the module of the Elixir struct `map`, if it is one.
pub fn get_ex_struct_name<'a, V: NifInterface>(vm: &V, map: NifTerm<'a>) -> (name: Option<NifAtom>)
    ensures
        names_struct(vm, map, name),
{
    let env = map.get_env();
    match get_field(vm, map, "__struct__") {
        Ok(name_term) => {
            let yes = is_atom(vm, env.raw(), name_term.raw());
            if yes {
                Some(NifAtom { term: name_term.as_c_arg() })
            } else {
                None
            }
        },
        Err(_) => None,
    }
}

/// Whether `reply` is an answer of the VM to the request to put `value`
/// into `map` under the atom named `name`: to make the atom, and then to
/// put the value.
pub open spec fn put_under<V: NifInterface>(
    vm: &V,
    env: NifEnv,
    map: NIF_TERM,
    name: &str,
    value: NIF_TERM,
    reply: (c_int, NIF_TERM),
) -> bool {
    exists|key: NIF_TERM|
        #[trigger] call_ensures(V::enif_make_atom_len, (vm, env.handle(), name), key)
            && call_ensures(V::enif_make_map_put, (vm, env.handle(), map, key, value), reply)
}

/// `map` with `value` under the atom named `name`, or `BadArg` where the VM
/// makes no such map.
pub fn put_field<'a, V: NifInterface>(vm: &V, map: NifTerm<'a>, name: &str, value: NifTerm<'a>) -> (r:
    NifResult<NifTerm<'a>, V>)
    requires
        map.env.handle() == value.env.handle(),
    ensures
        exists|reply: (c_int, NIF_TERM)|
            #[trigger] put_under(vm, map.env, map.term.0, name, value.term.0, reply) && r
                == found_or_badarg::<V>(map.env, term_of_reply(reply)),
{
    let env = map.get_env();
    let key = get_atom_init(vm, env, name).to_term(env);
    let r = map.map_put(vm, key, value);
    proof {
        let reply = choose|reply: (c_int, NIF_TERM)|
            #[trigger] call_ensures(
                V::enif_make_map_put,
                (vm, map.env.handle(), map.term.0, key.term.0, value.term.0),
                reply,
            ) && r == found_or_badarg::<V>(map.env, term_of_reply(reply));
        assert(put_under(vm, map.env, map.term.0, name, value.term.0, reply));
    }
    r
}

/// Whether `made` is what [`make_ex_struct`] may return: a new map of the
/// VM with the atom named `struct_module` put under `__struct__`, or
/// nothing where the VM does not put it.
pub open spec fn makes_struct<V: NifInterface>(
    vm: &V,
    env: NifEnv,
    struct_module: &str,
    made: Option<NifTerm>,
) -> bool {
    exists|new_map: NIF_TERM, name: NIF_TERM, reply: (c_int, NIF_TERM)|
        {
            &&& #[trigger] call_ensures(V::enif_make_new_map, (vm, env.handle()), new_map)
            &&& #[trigger] call_ensures(
                V::enif_make_atom_len,
                (vm, env.handle(), struct_module),
                name,
            )
            &&& #[trigger] put_under(vm, env, new_map, "__struct__", name, reply)
            &&& made == match term_of_reply(reply) {
                Some(term) => Some(NifTerm { term: term, env: env }),
                None => None,
            }
        }
}

/// An Elixir struct of the module `struct_module` without any field.
pub fn make_ex_struct<'a, V: NifInterface>(vm: &V, env: NifEnv<'a>, struct_module: &str) -> (made:
    Option<NifTerm<'a>>)
    ensures
        makes_struct(vm, env, struct_module, made),
{
    let map = map_new(vm, env);
    let name = get_atom_init(vm, env, struct_module).to_term(env);
    let r = put_field(vm, map, "__struct__", name);
    let made = match r {
        Ok(term) => Some(term),
        Err(_) => None,
    };
    made
}

/// Whether the VM finds a value in `map` under the atom named `name`.
pub open spec fn finds<V: NifInterface>(vm: &V, map: NifTerm, name: &str) -> bool {
    exists|value: NIF_TERM| #[trigger] looked_up(vm, map.env, map.term.0, name, (1, value))
}

/// Whether `r` is what reading the fields `fields` of `map` may give.
///
/// It is `Ok` with one term for each field, in the order of `fields`, where
/// the VM found each field in `map`; the terms are the ones it found, in
/// the environment of `map`. It is `BadArg` where the VM did not find one
/// of the fields, having found all the fields before it.
pub open spec fn reads_fields<V: NifInterface>(
    vm: &V,
    map: NifTerm,
    fields: Seq<&str>,
    r: Result<Seq<NifTerm>, NifError<V>>,
) -> bool {
    match r {
        Ok(values) => {
            &&& values.len() == fields.len()
            &&& forall|i: int|
                0 <= i < fields.len() ==> (#[trigger] values[i]).env == map.env && looked_up(
                    vm,
                    map.env,
                    map.term.0,
                    fields[i],
                    (1, values[i].term.0),
                )
        },
        Err(e) => {
            &&& e is BadArg
            &&& exists|missing: int, reply: (c_int, NIF_TERM)|
                {
                    &&& 0 <= missing < fields.len()
                    &&& reply.0 != 1
                    &&& #[trigger] looked_up(vm, map.env, map.term.0, fields[missing], reply)
                    &&& forall|j: int| 0 <= j < missing ==> #[trigger] finds(vm, map, fields[j])
                }
        },
    }
}

/// The values of the fields `fields` of `map`, in the order of `fields`, or
/// `BadArg` at the first field that the VM does not find; see
/// [`reads_fields`].
pub fn decode_fields<'a, V: NifInterface>(vm: &V, map: NifTerm<'a>, fields: &[&str]) -> (r: NifResult<
    Vec<NifTerm<'a>>,
    V,
>)
    ensures
        reads_fields(vm, map, fields@, terms_view(r)),
{
    let mut values: Vec<NifTerm<'a>> = Vec::new();
    let mut i: usize = 0;
    while i < fields.len()
        invariant
            i <= fields.len(),
            values@.len() == i,
            forall|j: int|
                0 <= j < i ==> (#[trigger] values@[j]).env == map.env && looked_up(
                    vm,
                    map.env,
                    map.term.0,
                    fields@[j],
                    (1, values@[j].term.0),
                ),
        decreases fields.len() - i,
    {
        let r = get_field(vm, map, fields[i]);
        let ghost reply = choose|reply: (c_int, NIF_TERM)|
            #[trigger] looked_up(vm, map.env, map.term.0, fields@[i as int], reply) && r
                == found_or_badarg::<V>(map.env, term_of_reply(reply));
        match r {
            Ok(value) => {
                values.push(value);
            },
            Err(e) => {
                proof {
                    assert forall|j: int| 0 <= j < i implies #[trigger] finds(
                        vm,
                        map,
                        fields@[j],
                    ) by {
                        assert(looked_up(
                            vm,
                            map.env,
                            map.term.0,
                            fields@[j],
                            (1, values@[j].term.0),
                        ));
                    }
                }
                return Err(NifError::BadArg);
            },
        }
        i += 1;
    }
    Ok(values)
}

/// Whether `r` is what decoding `term` as a struct of the module `module`
/// with the fields `fields` may give: `BadArg` where `term` names no
/// struct, or another one than the atom that the VM makes for `module`, and
/// otherwise what reading the fields gives.
pub open spec fn decodes_struct<V: NifInterface>(
    vm: &V,
    term: NifTerm,
    module: &str,
    fields: Seq<&str>,
    r: Result<Seq<NifTerm>, NifError<V>>,
) -> bool {
    exists|name: Option<NifAtom>|
        {
            &&& #[trigger] names_struct(vm, term, name)
            &&& match name {
                None => r == Err::<Seq<NifTerm>, NifError<V>>(NifError::BadArg),
                Some(atom) => exists|expected: NIF_TERM|
                    {
                        &&& #[trigger] call_ensures(
                            V::enif_make_atom_len,
                            (vm, term.env.handle(), module),
                            expected,
                        )
                        &&& if atom.term == expected {
                            reads_fields(vm, term, fields, r)
                        } else {
                            r == Err::<Seq<NifTerm>, NifError<V>>(NifError::BadArg)
                        }
                    },
            }
        }
}

/// The values of the fields `fields` of the Elixir struct `term` of the
/// module `module`, in the order of `fields`; see [`decodes_struct`].
pub fn decode_struct<'a, V: NifInterface>(
    vm: &V,
    term: NifTerm<'a>,
    module: &str,
    fields: &[&str],
) -> (r: NifResult<Vec<NifTerm<'a>>, V>)
    ensures
        decodes_struct(vm, term, module, fields@, terms_view(r)),
{
    match get_ex_struct_name(vm, term) {
        Some(atom) => {
            let expected = get_atom_init(vm, term.get_env(), module);
            if atom.as_c_arg() != expected.as_c_arg() {
                return Err(NifError::BadArg);
            }
        },
        None => {
            return Err(NifError::BadArg);
        },
    }
    decode_fields(vm, term, fields)
}

/// Whether `built` is what putting `entries` into `map`, one after the
/// other, may give: the last map that the VM made, or nothing where the VM
/// did not make one of them.
pub open spec fn puts_fields<V: NifInterface>(
    vm: &V,
    env: NifEnv,
    map: NIF_TERM,
    entries: Seq<(&str, NifTerm)>,
    built: Option<NIF_TERM>,
) -> bool
    decreases entries.len(),
{
    if entries.len() == 0 {
        built == Some(map)
    } else {
        exists|reply: (c_int, NIF_TERM)|
            {
                &&& #[trigger] put_under(vm, env, map, entries[0].0, entries[0].1.term.0, reply)
                &&& if reply.0 == 1 {
                    puts_fields(vm, env, reply.1, entries.skip(1), built)
                } else {
                    built is None
                }
            }
    }
}

/// Whether each of `entries` holds a term of `env`.
pub open spec fn entries_in(env: NifEnv, entries: Seq<(&str, NifTerm)>) -> bool {
    forall|i: int| 0 <= i < entries.len() ==> (#[trigger] entries[i]).1.env.handle() == env.handle()
}

/// The handle of an optional term.
pub open spec fn handle_of(term: Option<NifTerm>) -> Option<NIF_TERM> {
    match term {
        Some(term) => Some(term.term.0),
        None => None,
    }
}

/// `map` with each of `entries` put under the atom of its name, in the
/// order of `entries`, or nothing where the VM does not make one of the
/// maps; see [`puts_fields`].
pub fn encode_fields<'a, V: NifInterface>(
    vm: &V,
    map: NifTerm<'a>,
    entries: &[(&str, NifTerm<'a>)],
) -> (built: Option<NifTerm<'a>>)
    requires
        entries_in(map.env, entries@),
    ensures
        built matches Some(term) ==> term.env == map.env,
        puts_fields(vm, map.env, map.term.0, entries@, handle_of(built)),
{
    let env = map.get_env();
    let mut current = map;
    let mut i: usize = 0;
    proof {
        assert(entries@.skip(0) == entries@);
    }
    while i < entries.len()
        invariant
            i <= entries.len(),
            env == map.env,
            current.env == env,
            entries_in(env, entries@),
            forall|built: Option<NIF_TERM>|
                puts_fields(vm, env, current.term.0, entries@.skip(i as int), built)
                    ==> #[trigger] puts_fields(vm, env, map.term.0, entries@, built),
        decreases entries.len() - i,
    {
        let ghost before = current;
        let (name, value) = entries[i];
        let r = put_field(vm, current, name, value);
        let ghost reply = choose|reply: (c_int, NIF_TERM)|
            #[trigger] put_under(vm, before.env, before.term.0, name, value.term.0, reply) && r
                == found_or_badarg::<V>(before.env, term_of_reply(reply));
        proof {
            assert(entries@.skip(i as int).skip(1) == entries@.skip(i + 1));
            assert(put_under(
                vm,
                env,
                before.term.0,
                entries@.skip(i as int)[0].0,
                entries@.skip(i as int)[0].1.term.0,
                reply,
            ));
        }
        match r {
            Ok(next) => {
                current = next;
            },
            Err(_) => {
                return None;
            },
        }
        i += 1;
    }
    Some(current)
}

/// Whether `built` is what encoding a struct of the module `module` with
/// the fields `entries` may give: what putting `entries` into a new struct
/// of that module gives, or nothing where the VM makes no such struct.
pub open spec fn encodes_struct<V: NifInterface>(
    vm: &V,
    env: NifEnv,
    module: &str,
    entries: Seq<(&str, NifTerm)>,
    built: Option<NIF_TERM>,
) -> bool {
    exists|made: Option<NifTerm>|
        {
            &&& #[trigger] makes_struct(vm, env, module, made)
            &&& match made {
                Some(map) => puts_fields(vm, env, map.term.0, entries, built),
                None => built is None,
            }
        }
}

/// An Elixir struct of the module `module` with the fields `entries`, in
/// `env`; see [`encodes_struct`].
pub fn encode_struct<'a, V: NifInterface>(
    vm: &V,
    env: NifEnv<'a>,
    module: &str,
    entries: &[(&str, NifTerm<'a>)],
) -> (built: Option<NifTerm<'a>>)
    requires
        entries_in(env, entries@),
    ensures
        built matches Some(term) ==> term.env == env,
        encodes_struct(vm, env, module, entries@, handle_of(built)),
{
    match make_ex_struct(vm, env, module) {
        Some(map) => encode_fields(vm, map, entries),
        None => None,
    }
}

} // verus!
