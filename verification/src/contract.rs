//! Builds a NEAR contract model from multiple parsed source units.
//!
//! Declaration units are pushed one at a time; the model grows
//! monotonically and is read once the caller stops pushing.  Interface
//! definitions are registered by name and looked up lazily, so an
//! implementation may reference an interface that arrives in a later
//! unit.

use vstd::prelude::*;

use crate::near_syn::{
    AliasDecl, EnumDecl, ErrorView, ImplDecl, Item, MethodDecl, MethodKind, NearError, NearImpl,
    NearMethod, NearStruct, SourceFile, StructDecl, TraitDecl, TraitMethodDecl, TypeExpr,
    has_attr, spec_has_attr, spec_method_kind,
};

verus! {

/// Registers one method under its name: the owning implementation is the
/// `item`-th retained declaration, and the method is its `member`-th one.
pub struct MethodEntry {
    pub name: String,
    pub item: usize,
    pub member: usize,
}

/// A declaration retained by the model for later emission.
pub enum NearItem {
    Impl(ImplDecl),
    Struct(StructDecl),
    Enum(EnumDecl),
    Type(AliasDecl),
}

/// An interface descriptor: a registered trait definition whose methods
/// are looked up by name.
pub struct NearItemTrait {
    pub item_trait: TraitDecl,
}

/// The last method of `ms` whose name is `name`, if any: a later
/// registration under the same name wins.
pub open spec fn spec_trait_method(ms: Seq<TraitMethodDecl>, name: Seq<char>) -> Option<
    TraitMethodDecl,
>
    decreases ms.len(),
{
    if ms.len() == 0 {
        None
    } else if ms.last().name@ == name {
        Some(ms.last())
    } else {
        spec_trait_method(ms.drop_last(), name)
    }
}

impl NearItemTrait {
    /// Looks up the interface's method declared under `name`.
    pub fn get(&self, name: &String) -> (r: Option<&TraitMethodDecl>)
        ensures
            match r {
                Some(m) => spec_trait_method(self.item_trait.methods@, name@) == Some(*m),
                None => spec_trait_method(self.item_trait.methods@, name@) is None,
            },
    {
        let ms = &self.item_trait.methods;
        let mut j: usize = ms.len();
        proof {
            assert(ms@.take(ms@.len() as int) =~= ms@);
        }
        while j > 0
            invariant
                j <= ms.len(),
                ms@ == self.item_trait.methods@,
                spec_trait_method(ms@, name@) == spec_trait_method(ms@.take(j as int), name@),
            decreases j,
        {
            j = j - 1;
            assert(ms@.take(j as int + 1).drop_last() =~= ms@.take(j as int));
            assert(ms@.take(j as int + 1).last() == ms@[j as int]);
            if crate::str_eq(ms[j].name.as_str(), name.as_str()) {
                return Some(&ms[j]);
            }
        }
        assert(ms@.take(0) =~= Seq::empty());
        None
    }

    fn new(item_trait: TraitDecl) -> (r: Self)
        ensures
            r == (NearItemTrait { item_trait }),
    {
        NearItemTrait { item_trait }
    }
}

/// Represents a pass over several source units to build a NEAR contract.
pub struct Contract {
    /// The name of the contract to export; `None` until a bare
    /// implementation with exported methods names it.
    pub name: Option<String>,
    /// The doc lines of the unit that declared the contract's own type.
    pub top_level_attrs: Vec<String>,
    /// All registered interface definitions, for lazy lookup by name.
    pub traits: Vec<NearItemTrait>,
    /// The implemented interface names, in order of first encounter;
    /// duplicates are kept.
    pub interfaces: Vec<String>,
    /// Registers each exported method under its name.
    pub methods: Vec<MethodEntry>,
    /// The `init` methods, in encounter order.
    pub init_methods: Vec<String>,
    /// The view methods, in encounter order.
    pub view_methods: Vec<String>,
    /// The change methods, in encounter order.
    pub change_methods: Vec<String>,
    /// The retained declarations, in encounter order.
    pub items: Vec<NearItem>,
}

/// The abstract state of a [`Contract`] model.
#[verifier::ext_equal]
pub struct ContractView {
    pub name: Option<String>,
    pub top_level_attrs: Seq<String>,
    pub traits: Seq<NearItemTrait>,
    pub interfaces: Seq<String>,
    pub methods: Seq<MethodEntry>,
    pub init_methods: Seq<String>,
    pub view_methods: Seq<String>,
    pub change_methods: Seq<String>,
    pub items: Seq<NearItem>,
}

impl View for Contract {
    type V = ContractView;

    open spec fn view(&self) -> ContractView {
        ContractView {
            name: self.name,
            top_level_attrs: self.top_level_attrs@,
            traits: self.traits@,
            interfaces: self.interfaces@,
            methods: self.methods@,
            init_methods: self.init_methods@,
            view_methods: self.view_methods@,
            change_methods: self.change_methods@,
            items: self.items@,
        }
    }
}

/// The empty model: no name, no interfaces, no methods, no items.
pub open spec fn spec_new_contract() -> ContractView {
    ContractView {
        name: None,
        top_level_attrs: Seq::empty(),
        traits: Seq::empty(),
        interfaces: Seq::empty(),
        methods: Seq::empty(),
        init_methods: Seq::empty(),
        view_methods: Seq::empty(),
        change_methods: Seq::empty(),
        items: Seq::empty(),
    }
}

/// The method entries that an implementation contributes when it is
/// retained as the `idx`-th item: one entry per exported method, in
/// declaration order.
pub open spec fn spec_method_entries(ms: Seq<MethodDecl>, i: ImplDecl, idx: usize) -> Seq<
    MethodEntry,
>
    decreases ms.len(),
{
    if ms.len() == 0 {
        Seq::empty()
    } else {
        spec_method_entries(ms.drop_last(), i, idx) + if ms.last().spec_is_exported(&i) {
            seq![
                MethodEntry {
                    name: ms.last().name,
                    item: idx,
                    member: (ms.len() - 1) as usize,
                },
            ]
        } else {
            Seq::empty()
        }
    }
}

/// The names of the exported methods of `ms` that classify into
/// category `k`, in declaration order.
pub open spec fn spec_kind_names(ms: Seq<MethodDecl>, i: ImplDecl, k: MethodKind) -> Seq<String>
    decreases ms.len(),
{
    if ms.len() == 0 {
        Seq::empty()
    } else {
        spec_kind_names(ms.drop_last(), i, k) + if ms.last().spec_is_exported(&i)
            && spec_method_kind(ms.last()) == k {
            seq![ms.last().name]
        } else {
            Seq::empty()
        }
    }
}

/// The effect of pushing one implementation declaration.
///
/// An implementation without the bindgen marker or without exported
/// methods contributes nothing.  A trait implementation appends the
/// interface name; a bare implementation names the contract, and its
/// owning type must be a simple name.  Every exported method is
/// registered under its name and classified into `init`, `view` or
/// `change`.
pub open spec fn spec_push_impl(c: ContractView, i: ImplDecl) -> Result<ContractView, ErrorView> {
    if !(i.spec_is_bindgen() && i.spec_has_exported_methods()) {
        Ok(c)
    } else {
        let filled = ContractView {
            methods: c.methods + spec_method_entries(i.items@, i, c.items.len() as usize),
            init_methods: c.init_methods + spec_kind_names(i.items@, i, MethodKind::Init),
            view_methods: c.view_methods + spec_kind_names(i.items@, i, MethodKind::View),
            change_methods: c.change_methods + spec_kind_names(i.items@, i, MethodKind::Change),
            items: c.items.push(NearItem::Impl(i)),
            ..c
        };
        match i.trait_name {
            Some(tn) => Ok(ContractView { interfaces: c.interfaces.push(tn), ..filled }),
            None => match i.self_ty {
                TypeExpr::Path(n, _) => Ok(ContractView { name: Some(n), ..filled }),
                _ => Err(ErrorView::MalformedSelfType),
            },
        }
    }
}

/// The effect of pushing a struct declaration: it is retained only when
/// it opts into the serialization markers; the flag tells whether it
/// also carries the bindgen marker.
pub open spec fn spec_push_struct(c: ContractView, s: StructDecl) -> (ContractView, bool) {
    if !s.spec_is_serde() {
        (c, false)
    } else {
        (
            ContractView { items: c.items.push(NearItem::Struct(s)), ..c },
            spec_has_attr(s.attrs@, "near_bindgen"@),
        )
    }
}

/// The effect of pushing an enum declaration: retained only when it
/// opts into the serialization markers.
pub open spec fn spec_push_enum(c: ContractView, e: EnumDecl) -> ContractView {
    if !e.spec_is_serde() {
        c
    } else {
        ContractView { items: c.items.push(NearItem::Enum(e)), ..c }
    }
}

/// The effect of pushing a type alias: always retained.
pub open spec fn spec_push_typedef(c: ContractView, t: AliasDecl) -> ContractView {
    ContractView { items: c.items.push(NearItem::Type(t)), ..c }
}

/// The effect of pushing a trait definition: it is registered as an
/// interface descriptor; a later registration under the same name wins
/// on lookup.
pub open spec fn spec_push_trait(c: ContractView, t: TraitDecl) -> ContractView {
    ContractView { traits: c.traits.push(NearItemTrait { item_trait: t }), ..c }
}

/// The effect of pushing one declaration; the flag tells whether the
/// declaration was a serializable struct carrying the bindgen marker.
/// Module groupings are flattened transparently and contribute nothing
/// to the flag.
pub open spec fn spec_push_item(c: ContractView, it: Item) -> Result<
    (ContractView, bool),
    ErrorView,
>
    decreases it,
{
    match it {
        Item::Impl(i) => match spec_push_impl(c, i) {
            Ok(c1) => Ok((c1, false)),
            Err(e) => Err(e),
        },
        Item::Struct(s) => Ok(spec_push_struct(c, s)),
        Item::Enum(e) => Ok((spec_push_enum(c, e), false)),
        Item::Type(t) => Ok((spec_push_typedef(c, t), false)),
        Item::Trait(t) => Ok((spec_push_trait(c, t), false)),
        Item::Mod(sub) => match spec_push_items(c, sub@) {
            Ok((c1, _)) => Ok((c1, false)),
            Err(e) => Err(e),
        },
    }
}

/// The effect of pushing a list of declarations, in order; the first
/// rejected declaration aborts the whole build.
pub open spec fn spec_push_items(c: ContractView, items: Seq<Item>) -> Result<
    (ContractView, bool),
    ErrorView,
>
    decreases items,
{
    if items.len() == 0 {
        Ok((c, false))
    } else {
        match spec_push_item(c, items.first()) {
            Err(e) => Err(e),
            Ok((c1, b1)) => match spec_push_items(c1, items.drop_first()) {
                Err(e) => Err(e),
                Ok((c2, b2)) => Ok((c2, b1 || b2)),
            },
        }
    }
}

/// The effect of pushing one source unit: its declarations in order,
/// and, when the unit declares the contract's own type, its doc lines.
pub open spec fn spec_push_ast(c: ContractView, f: SourceFile) -> Result<ContractView, ErrorView> {
    match spec_push_items(c, f.items@) {
        Err(e) => Err(e),
        Ok((c1, declares)) => Ok(
            if declares {
                ContractView { top_level_attrs: f.attrs@, ..c1 }
            } else {
                c1
            },
        ),
    }
}

/// The effect of pushing several source units, in order.
pub open spec fn spec_push_asts(c: ContractView, fs: Seq<SourceFile>) -> Result<
    ContractView,
    ErrorView,
>
    decreases fs,
{
    if fs.len() == 0 {
        Ok(c)
    } else {
        match spec_push_ast(c, fs.first()) {
            Err(e) => Err(e),
            Ok(c1) => spec_push_asts(c1, fs.drop_first()),
        }
    }
}

/// Whether one declaration admits into the model: a bindgen
/// implementation with exported methods and no implemented interface
/// must own a simple name; module contents are checked recursively.
pub open spec fn spec_item_ok(it: Item) -> bool
    decreases it,
{
    match it {
        Item::Impl(i) => !(i.spec_is_bindgen() && i.spec_has_exported_methods())
            || i.trait_name is Some || i.self_ty is Path,
        Item::Mod(sub) => spec_items_ok(sub@),
        _ => true,
    }
}

/// Whether every declaration of a unit admits into the model.
pub open spec fn spec_items_ok(items: Seq<Item>) -> bool
    decreases items,
{
    items.len() == 0 || (spec_item_ok(items.first()) && spec_items_ok(items.drop_first()))
}

/// Pushing a list of declarations succeeds exactly when each of them
/// admits into the model, whatever the starting state; the only failure
/// is a malformed owning type.
pub proof fn lemma_push_items_ok(c: ContractView, items: Seq<Item>)
    ensures
        spec_push_items(c, items) is Ok <==> spec_items_ok(items),
        spec_push_items(c, items) matches Err(e) ==> e == ErrorView::MalformedSelfType,
    decreases items,
{
    if items.len() != 0 {
        lemma_push_item_ok(c, items.first());
        match spec_push_item(c, items.first()) {
            Ok((c1, _)) => {
                lemma_push_items_ok(c1, items.drop_first());
            },
            Err(_) => {},
        }
    }
}

proof fn lemma_push_item_ok(c: ContractView, it: Item)
    ensures
        spec_push_item(c, it) is Ok <==> spec_item_ok(it),
        spec_push_item(c, it) matches Err(e) ==> e == ErrorView::MalformedSelfType,
    decreases it,
{
    match it {
        Item::Mod(sub) => {
            lemma_push_items_ok(c, sub@);
        },
        _ => {},
    }
}

/// Checks that one declaration admits into the model.
fn check_item(it: &Item) -> (r: bool)
    ensures
        r == spec_item_ok(*it),
    decreases *it,
{
    match it {
        Item::Impl(i) => {
            if !(i.is_bindgen() && i.has_exported_methods()) {
                true
            } else if i.trait_name.is_some() {
                true
            } else {
                match &i.self_ty {
                    TypeExpr::Path(_, _) => true,
                    _ => false,
                }
            }
        },
        Item::Mod(sub) => check_items(sub),
        _ => true,
    }
}

/// Checks that every declaration of a unit admits into the model.
fn check_items(items: &Vec<Item>) -> (r: bool)
    ensures
        r == spec_items_ok(items@),
    decreases items@,
{
    let mut k: usize = 0;
    assert(items@.skip(0) =~= items@);
    while k < items.len()
        invariant
            k <= items@.len(),
            spec_items_ok(items@) == spec_items_ok(items@.skip(k as int)),
        decreases items@.len() - k,
    {
        proof {
            assert(items@.skip(k as int).first() == items@[k as int]);
            assert(items@.skip(k as int).drop_first() =~= items@.skip(k as int + 1));
        }
        assert(decreases_to!(items@ => items@[k as int]));
        if !check_item(&items[k]) {
            return false;
        }
        k = k + 1;
    }
    proof {
        assert(items@.skip(items@.len() as int) =~= Seq::<Item>::empty());
    }
    true
}

impl Contract {
    /// Creates a new `Contract` instance with default values.
    pub fn new() -> (r: Self)
        ensures
            r@ == spec_new_contract(),
    {
        let r = Contract {
            name: None,
            top_level_attrs: Vec::new(),
            traits: Vec::new(),
            interfaces: Vec::new(),
            methods: Vec::new(),
            init_methods: Vec::new(),
            view_methods: Vec::new(),
            change_methods: Vec::new(),
            items: Vec::new(),
        };
        proof {
            assert(r@ =~= spec_new_contract());
        }
        r
    }

    /// Pushes several source units into the model, in order.
    pub fn push_asts(&mut self, asts: Vec<SourceFile>) -> (r: Result<(), NearError>)
        ensures
            spec_push_asts(old(self)@, asts@) matches Ok(c) ==> r is Ok && final(self)@ == c,
            spec_push_asts(old(self)@, asts@) matches Err(e) ==> r matches Err(er) && er@ == e,
        decreases asts@,
    {
        let mut asts = asts;
        if asts.len() == 0 {
            return Ok(());
        }
        let ghost asts0 = asts@;
        let ast = asts.remove(0);
        proof {
            assert(asts@ =~= asts0.drop_first());
        }
        match self.push_ast(ast) {
            Ok(_) => {},
            Err(e) => {
                return Err(e);
            },
        }
        self.push_asts(asts)
    }

    /// Pushes one source unit into the model.  A unit holding a
    /// malformed declaration is rejected whole and contributes nothing.
    pub fn push_ast(&mut self, ast: SourceFile) -> (r: Result<(), NearError>)
        ensures
            spec_push_ast(old(self)@, ast) matches Ok(c) ==> r is Ok && final(self)@ == c,
            spec_push_ast(old(self)@, ast) matches Err(e) ==> r matches Err(er) && er@ == e
                && final(self)@ == old(self)@,
    {
        let SourceFile { attrs, items } = ast;
        if !check_items(&items) {
            proof {
                lemma_push_items_ok(self@, items@);
            }
            return Err(NearError::MalformedSelfType);
        }
        proof {
            lemma_push_items_ok(self@, items@);
        }
        match self.push_items(items) {
            Ok(declares) => {
                if declares {
                    self.top_level_attrs = attrs;
                    proof {
                        assert(self@ =~= spec_push_ast(old(self)@, ast)->Ok_0);
                    }
                }
                Ok(())
            },
            Err(e) => Err(e),
        }
    }

    /// Pushes a list of declarations, flattening module groupings.
    /// Returns whether one of them was a serializable struct carrying
    /// the bindgen marker.
    pub fn push_items(&mut self, items: Vec<Item>) -> (r: Result<bool, NearError>)
        ensures
            spec_push_items(old(self)@, items@) matches Ok(p) ==> r matches Ok(b) && b == p.1
                && final(self)@ == p.0,
            spec_push_items(old(self)@, items@) matches Err(e) ==> r matches Err(er) && er@ == e,
        decreases items@,
    {
        let mut items = items;
        if items.len() == 0 {
            return Ok(false);
        }
        let ghost items0 = items@;
        let item = items.remove(0);
        proof {
            assert(items@ =~= items0.drop_first());
            assert(decreases_to!(items0 => items0[0]));
        }
        let b1 = match self.push_item(item) {
            Ok(b) => b,
            Err(e) => {
                return Err(e);
            },
        };
        match self.push_items(items) {
            Ok(b2) => Ok(b1 || b2),
            Err(e) => Err(e),
        }
    }

    /// Pushes one declaration into the model.
    fn push_item(&mut self, item: Item) -> (r: Result<bool, NearError>)
        ensures
            spec_push_item(old(self)@, item) matches Ok(p) ==> r matches Ok(b) && b == p.1
                && final(self)@ == p.0,
            spec_push_item(old(self)@, item) matches Err(e) ==> r matches Err(er) && er@ == e,
        decreases item,
    {
        let ghost item0 = item;
        match item {
            Item::Impl(item_impl) => match self.push_impl(item_impl) {
                Ok(_) => Ok(false),
                Err(e) => Err(e),
            },
            Item::Struct(item_struct) => Ok(self.push_struct(item_struct)),
            Item::Enum(item_enum) => {
                self.push_enum(item_enum);
                Ok(false)
            },
            Item::Type(item_type) => {
                self.push_typedef(item_type);
                Ok(false)
            },
            Item::Trait(item_trait) => {
                self.push_trait(item_trait);
                Ok(false)
            },
            Item::Mod(mod_items) => {
                proof {
                    assert(decreases_to!(item0 => mod_items));
                    assert(decreases_to!(mod_items => mod_items@));
                }
                match self.push_items(mod_items) {
                    Ok(_) => Ok(false),
                    Err(e) => Err(e),
                }
            },
        }
    }

    /// Pushes an implementation declaration: registers its exported
    /// methods and classifies each into `init`, `view` or `change`.
    fn push_impl(&mut self, item_impl: ImplDecl) -> (r: Result<(), NearError>)
        ensures
            spec_push_impl(old(self)@, item_impl) matches Ok(c) ==> r is Ok && final(self)@ == c,
            spec_push_impl(old(self)@, item_impl) matches Err(e) ==> r matches Err(er) && er@ == e
                && final(self)@ == old(self)@,
    {
        if !(item_impl.is_bindgen() && item_impl.has_exported_methods()) {
            return Ok(());
        }
        match &item_impl.trait_name {
            Some(tn) => {
                let tn = tn.clone();
                self.interfaces.push(tn);
            },
            None => {
                match &item_impl.self_ty {
                    TypeExpr::Path(n, _) => {
                        let n = n.clone();
                        self.name = Some(n);
                    },
                    _ => {
                        return Err(NearError::MalformedSelfType);
                    },
                }
            },
        }
        let ghost mid = self@;
        let idx = self.items.len();
        let mut j: usize = 0;
        while j < item_impl.items.len()
            invariant
                j <= item_impl.items@.len(),
                idx == mid.items.len(),
                self@.name == mid.name,
                self@.top_level_attrs == mid.top_level_attrs,
                self@.traits == mid.traits,
                self@.interfaces == mid.interfaces,
                self@.items == mid.items,
                self@.methods == mid.methods + spec_method_entries(
                    item_impl.items@.take(j as int),
                    item_impl,
                    idx,
                ),
                self@.init_methods == mid.init_methods + spec_kind_names(
                    item_impl.items@.take(j as int),
                    item_impl,
                    MethodKind::Init,
                ),
                self@.view_methods == mid.view_methods + spec_kind_names(
                    item_impl.items@.take(j as int),
                    item_impl,
                    MethodKind::View,
                ),
                self@.change_methods == mid.change_methods + spec_kind_names(
                    item_impl.items@.take(j as int),
                    item_impl,
                    MethodKind::Change,
                ),
            decreases item_impl.items@.len() - j,
        {
            proof {
                assert(item_impl.items@.take(j as int + 1).drop_last() =~= item_impl.items@.take(
                    j as int,
                ));
                assert(item_impl.items@.take(j as int + 1).last() == item_impl.items@[j as int]);
            }
            let m = &item_impl.items[j];
            if m.is_exported(&item_impl) {
                let entry = MethodEntry { name: m.name.clone(), item: idx, member: j };
                self.methods.push(entry);
                if m.is_init() {
                    self.init_methods.push(m.name.clone());
                } else if m.is_mut() {
                    self.change_methods.push(m.name.clone());
                } else {
                    self.view_methods.push(m.name.clone());
                }
            }
            j = j + 1;
        }
        proof {
            assert(item_impl.items@.take(item_impl.items@.len() as int) =~= item_impl.items@);
        }
        self.items.push(NearItem::Impl(item_impl));
        proof {
            assert(self@ =~= spec_push_impl(old(self)@, item_impl)->Ok_0);
        }
        Ok(())
    }

    /// Pushes a struct declaration; returns whether it carries both the
    /// serialization and the bindgen markers.
    fn push_struct(&mut self, item_struct: StructDecl) -> (r: bool)
        ensures
            final(self)@ == spec_push_struct(old(self)@, item_struct).0,
            r == spec_push_struct(old(self)@, item_struct).1,
    {
        if !item_struct.is_serde() {
            return false;
        }
        let is_bindgen = has_attr(&item_struct.attrs, "near_bindgen");
        self.items.push(NearItem::Struct(item_struct));
        proof {
            assert(self@ =~= spec_push_struct(old(self)@, item_struct).0);
        }
        is_bindgen
    }

    /// Pushes an enum declaration; kept only when serializable.
    fn push_enum(&mut self, item_enum: EnumDecl)
        ensures
            final(self)@ == spec_push_enum(old(self)@, item_enum),
    {
        if !item_enum.is_serde() {
            return ;
        }
        self.items.push(NearItem::Enum(item_enum));
        proof {
            assert(self@ =~= spec_push_enum(old(self)@, item_enum));
        }
    }

    /// Pushes a type alias; always kept.
    fn push_typedef(&mut self, item_type: AliasDecl)
        ensures
            final(self)@ == spec_push_typedef(old(self)@, item_type),
    {
        self.items.push(NearItem::Type(item_type));
        proof {
            assert(self@ =~= spec_push_typedef(old(self)@, item_type));
        }
    }

    /// Registers a trait definition as an interface descriptor.
    fn push_trait(&mut self, item_trait: TraitDecl)
        ensures
            final(self)@ == spec_push_trait(old(self)@, item_trait),
    {
        self.traits.push(NearItemTrait::new(item_trait));
        proof {
            assert(self@ =~= spec_push_trait(old(self)@, item_trait));
        }
    }

    /// Looks up the interface registered under `name`; a later
    /// registration under the same name wins.
    pub fn find_trait(&self, name: &String) -> (r: Option<&NearItemTrait>)
        ensures
            match r {
                Some(t) => spec_find_trait(self@.traits, name@) == Some(*t),
                None => spec_find_trait(self@.traits, name@) is None,
            },
    {
        let ts = &self.traits;
        let mut j: usize = ts.len();
        proof {
            assert(ts@.take(ts@.len() as int) =~= ts@);
        }
        while j > 0
            invariant
                j <= ts.len(),
                ts@ == self@.traits,
                spec_find_trait(ts@, name@) == spec_find_trait(ts@.take(j as int), name@),
            decreases j,
        {
            j = j - 1;
            assert(ts@.take(j as int + 1).drop_last() =~= ts@.take(j as int));
            assert(ts@.take(j as int + 1).last() == ts@[j as int]);
            if crate::str_eq(ts[j].item_trait.name.as_str(), name.as_str()) {
                return Some(&ts[j]);
            }
        }
        assert(ts@.take(0) =~= Seq::<NearItemTrait>::empty());
        None
    }

    /// Looks up the registered method entry under `name` and resolves
    /// it to its declaration and its owning implementation; the most
    /// recent registration under the name wins.
    pub fn get_method(&self, name: &String) -> (r: Option<(&MethodDecl, &ImplDecl)>)
        ensures
            match r {
                Some(p) => spec_method_of(self@, name@) matches Some(q) && *p.0 == q.0 && *p.1
                    == q.1,
                None => spec_method_of(self@, name@) is None,
            },
    {
        let ms = &self.methods;
        let mut j: usize = ms.len();
        proof {
            assert(ms@.take(ms@.len() as int) =~= ms@);
        }
        while j > 0
            invariant
                j <= ms.len(),
                ms@ == self@.methods,
                spec_lookup_entry(ms@, name@) == spec_lookup_entry(ms@.take(j as int), name@),
            decreases j,
        {
            j = j - 1;
            assert(ms@.take(j as int + 1).drop_last() =~= ms@.take(j as int));
            assert(ms@.take(j as int + 1).last() == ms@[j as int]);
            if crate::str_eq(ms[j].name.as_str(), name.as_str()) {
                let entry = &ms[j];
                if entry.item < self.items.len() {
                    match &self.items[entry.item] {
                        NearItem::Impl(i) => {
                            if entry.member < i.items.len() {
                                return Some((&i.items[entry.member], i));
                            } else {
                                return None;
                            }
                        },
                        _ => {
                            return None;
                        },
                    }
                } else {
                    return None;
                }
            }
        }
        assert(ms@.take(0) =~= Seq::<MethodEntry>::empty());
        None
    }

    /// Merges an exported method's documentation with its interface's:
    /// the implementation's lines first, then the same-named interface
    /// method's lines.  A bare implementation, an unknown interface or a
    /// method the interface does not declare yields the implementation's
    /// lines alone; the lookup never fails the build.
    pub fn merged_docs(&self, docs: &Vec<String>, trait_name: &Option<String>, member: &String)
        -> (r: Vec<String>)
        ensures
            r@ == spec_merged_docs(self@, docs@, *trait_name, member@),
    {
        let mut r = clone_docs(docs);
        if let Some(tn) = trait_name {
            if let Some(tr) = self.find_trait(tn) {
                if let Some(m) = tr.get(member) {
                    append_docs(&mut r, &m.docs);
                }
            }
        }
        r
    }

    /// Merges an implementation declaration's documentation with the
    /// implemented interface's own: the implementation's lines first,
    /// then the interface definition's lines.
    pub fn merged_impl_docs(&self, docs: &Vec<String>, trait_name: &Option<String>) -> (r: Vec<
        String,
    >)
        ensures
            r@ == spec_merged_impl_docs(self@, docs@, *trait_name),
    {
        let mut r = clone_docs(docs);
        if let Some(tn) = trait_name {
            if let Some(tr) = self.find_trait(tn) {
                append_docs(&mut r, &tr.item_trait.docs);
            }
        }
        r
    }
}

/// The last registered interface named `name`, if any.
pub open spec fn spec_find_trait(ts: Seq<NearItemTrait>, name: Seq<char>) -> Option<NearItemTrait>
    decreases ts.len(),
{
    if ts.len() == 0 {
        None
    } else if ts.last().item_trait.name@ == name {
        Some(ts.last())
    } else {
        spec_find_trait(ts.drop_last(), name)
    }
}

/// The last method entry registered under `name`, if any.
pub open spec fn spec_lookup_entry(ms: Seq<MethodEntry>, name: Seq<char>) -> Option<MethodEntry>
    decreases ms.len(),
{
    if ms.len() == 0 {
        None
    } else if ms.last().name@ == name {
        Some(ms.last())
    } else {
        spec_lookup_entry(ms.drop_last(), name)
    }
}

/// The method registered under `name`, resolved to its declaration and
/// its owning implementation.
pub open spec fn spec_method_of(c: ContractView, name: Seq<char>) -> Option<(MethodDecl, ImplDecl)> {
    match spec_lookup_entry(c.methods, name) {
        None => None,
        Some(e) => if e.item < c.items.len() {
            match c.items[e.item as int] {
                NearItem::Impl(i) => if e.member < i.items@.len() {
                    Some((i.items@[e.member as int], i))
                } else {
                    None
                },
                _ => None,
            }
        } else {
            None
        },
    }
}

/// The merged documentation of an exported method: the implementation's
/// lines, then the same-named method's lines from the implemented
/// interface, when both the interface and the method resolve.
pub open spec fn spec_merged_docs(
    c: ContractView,
    docs: Seq<String>,
    trait_name: Option<String>,
    member: Seq<char>,
) -> Seq<String> {
    match trait_name {
        None => docs,
        Some(tn) => match spec_find_trait(c.traits, tn@) {
            None => docs,
            Some(tr) => match spec_trait_method(tr.item_trait.methods@, member) {
                None => docs,
                Some(m) => docs + m.docs@,
            },
        },
    }
}

/// The merged documentation of an implementation declaration: its own
/// lines, then the implemented interface definition's lines when the
/// interface resolves.
pub open spec fn spec_merged_impl_docs(
    c: ContractView,
    docs: Seq<String>,
    trait_name: Option<String>,
) -> Seq<String> {
    match trait_name {
        None => docs,
        Some(tn) => match spec_find_trait(c.traits, tn@) {
            None => docs,
            Some(tr) => docs + tr.item_trait.docs@,
        },
    }
}

/// Copies a list of doc lines.
fn clone_docs(docs: &Vec<String>) -> (r: Vec<String>)
    ensures
        r@ == docs@,
{
    let mut r: Vec<String> = Vec::new();
    let mut i: usize = 0;
    while i < docs.len()
        invariant
            i <= docs.len(),
            r@ =~= docs@.take(i as int),
        decreases docs.len() - i,
    {
        r.push(docs[i].clone());
        assert(r@ =~= docs@.take(i as int + 1));
        i = i + 1;
    }
    proof {
        assert(docs@.take(docs@.len() as int) =~= docs@);
    }
    r
}

/// Appends a list of doc lines to another.
fn append_docs(dst: &mut Vec<String>, src: &Vec<String>)
    ensures
        final(dst)@ == old(dst)@ + src@,
{
    let mut i: usize = 0;
    while i < src.len()
        invariant
            i <= src.len(),
            dst@ =~= old(dst)@ + src@.take(i as int),
        decreases src.len() - i,
    {
        dst.push(src[i].clone());
        assert(dst@ =~= old(dst)@ + src@.take(i as int + 1));
        i = i + 1;
    }
    proof {
        assert(src@.take(src@.len() as int) =~= src@);
    }
}

/// A model built from zero declaration units has no name, an empty
/// interface list and three empty category lists.
pub proof fn lemma_empty_build()
    ensures
        spec_push_asts(spec_new_contract(), Seq::empty()) == Ok::<ContractView, ErrorView>(
            spec_new_contract(),
        ),
        spec_new_contract().name is None,
        spec_new_contract().interfaces.len() == 0,
        spec_new_contract().init_methods.len() == 0,
        spec_new_contract().view_methods.len() == 0,
        spec_new_contract().change_methods.len() == 0,
{
}

/// Each method feeds exactly the category list of its classification:
/// extending the methods scanned so far by one appends that method's
/// name to the list of its own kind, and leaves the lists of the other
/// kinds unchanged; a method that is not exported feeds no list.  With
/// [`crate::near_syn::lemma_method_classification`] fixing the kind and
/// [`spec_push_impl`] appending these lists to the model, this settles
/// how every pushed method is categorized.
pub proof fn lemma_each_method_feeds_its_category(
    ms: Seq<MethodDecl>,
    i: ImplDecl,
    j: int,
    k: MethodKind,
)
    requires
        0 <= j < ms.len(),
    ensures
        spec_kind_names(ms.take(j + 1), i, k) == spec_kind_names(ms.take(j), i, k) + (
        if ms[j].spec_is_exported(&i) && spec_method_kind(ms[j]) == k {
            seq![ms[j].name]
        } else {
            Seq::<String>::empty()
        }),
{
    assert(ms.take(j + 1).drop_last() =~= ms.take(j));
    assert(ms.take(j + 1).last() == ms[j]);
}

/// Doc Merge keeps both sides, implementation first: when the interface
/// and the same-named method resolve, the merged lines are the
/// implementation's followed by the interface's; otherwise the
/// implementation's lines stand alone.
pub proof fn lemma_doc_merge(
    c: ContractView,
    docs: Seq<String>,
    trait_name: Option<String>,
    member: Seq<char>,
)
    ensures
        ({
            let merged = spec_merged_docs(c, docs, trait_name, member);
            if trait_name is Some {
                let found = spec_find_trait(c.traits, trait_name->Some_0@);
                if found is Some {
                    let m = spec_trait_method(found->Some_0.item_trait.methods@, member);
                    if m is Some {
                        merged == docs + m->Some_0.docs@
                    } else {
                        merged == docs
                    }
                } else {
                    merged == docs
                }
            } else {
                merged == docs
            }
        }),
{
}

/// Looking up a name over concatenated entries prefers the later part.
proof fn lemma_lookup_entry_append(a: Seq<MethodEntry>, b: Seq<MethodEntry>, name: Seq<char>)
    ensures
        spec_lookup_entry(a + b, name) == if spec_lookup_entry(b, name) is Some {
            spec_lookup_entry(b, name)
        } else {
            spec_lookup_entry(a, name)
        },
    decreases b.len(),
{
    if b.len() == 0 {
        assert(a + b =~= a);
    } else {
        assert((a + b).drop_last() =~= a + b.drop_last());
        assert((a + b).last() == b.last());
        lemma_lookup_entry_append(a, b.drop_last(), name);
    }
}

/// When an implementation declares an exported method named `name`, the
/// entries it contributes register that name, owned by item `idx`.
proof fn lemma_entries_found(ms: Seq<MethodDecl>, i: ImplDecl, idx: usize, name: Seq<char>, j: int)
    requires
        ms.len() <= usize::MAX,
        0 <= j < ms.len(),
        ms[j].spec_is_exported(&i),
        ms[j].name@ == name,
    ensures
        spec_lookup_entry(spec_method_entries(ms, i, idx), name) matches Some(e) && e.item == idx
            && e.member < ms.len() && ms[e.member as int].name@ == name && ms[
            e.member as int
        ].spec_is_exported(&i),
    decreases ms.len(),
{
    let pre = ms.drop_last();
    let last = ms.last();
    let tail = if last.spec_is_exported(&i) {
        seq![
            MethodEntry { name: last.name, item: idx, member: (ms.len() - 1) as usize },
        ]
    } else {
        Seq::<MethodEntry>::empty()
    };
    assert(spec_method_entries(ms, i, idx) == spec_method_entries(pre, i, idx) + tail);
    lemma_lookup_entry_append(spec_method_entries(pre, i, idx), tail, name);
    assert(spec_lookup_entry(Seq::<MethodEntry>::empty(), name) is None);
    if last.spec_is_exported(&i) && last.name@ == name {
        assert(tail.drop_last() =~= Seq::<MethodEntry>::empty());
        assert(spec_lookup_entry(tail, name) == Some(tail.last()));
    } else {
        if tail.len() != 0 {
            assert(tail.last() == MethodEntry {
                name: last.name,
                item: idx,
                member: (ms.len() - 1) as usize,
            });
            assert(tail.last().name@ != name);
            assert(tail.drop_last() =~= Seq::<MethodEntry>::empty());
        }
        assert(spec_lookup_entry(tail, name) is None);
        assert(j < ms.len() - 1);
        assert(pre[j] == ms[j]);
        lemma_entries_found(pre, i, idx, name, j);
    }
}

/// When two implementations each declare an exported method of the same
/// name and are pushed in turn, the model resolves that name to the most
/// recently pushed declaration, while the category lists built by the
/// earlier push keep their entries.
pub proof fn lemma_latest_registration_wins(
    c: ContractView,
    i1: ImplDecl,
    i2: ImplDecl,
    name: Seq<char>,
    j2: int,
)
    requires
        c.items.len() + 2 <= usize::MAX,
        i2.items@.len() <= usize::MAX,
        spec_push_impl(c, i1) is Ok,
        spec_push_impl(spec_push_impl(c, i1)->Ok_0, i2) is Ok,
        i2.spec_is_bindgen(),
        0 <= j2 < i2.items@.len(),
        i2.items@[j2].spec_is_exported(&i2),
        i2.items@[j2].name@ == name,
    ensures
        ({
            let c1 = spec_push_impl(c, i1)->Ok_0;
            let c2 = spec_push_impl(c1, i2)->Ok_0;
            &&& spec_method_of(c2, name) matches Some(p) && p.1 == i2 && p.0.name@ == name
                && p.0.spec_is_exported(&i2)
            &&& c1.init_methods.is_prefix_of(c2.init_methods)
            &&& c1.view_methods.is_prefix_of(c2.view_methods)
            &&& c1.change_methods.is_prefix_of(c2.change_methods)
        }),
{
    let c1 = spec_push_impl(c, i1)->Ok_0;
    let c2 = spec_push_impl(c1, i2)->Ok_0;
    assert(i2.spec_has_exported_methods());
    assert(c1.items.len() <= c.items.len() + 1);
    let idx = c1.items.len() as usize;
    assert(idx as int == c1.items.len());
    let entries = spec_method_entries(i2.items@, i2, idx);
    assert(c2.methods == c1.methods + entries);
    assert(c2.items == c1.items.push(NearItem::Impl(i2)));
    lemma_entries_found(i2.items@, i2, idx, name, j2);
    lemma_lookup_entry_append(c1.methods, entries, name);
    let e = spec_lookup_entry(entries, name)->Some_0;
    assert(spec_lookup_entry(c2.methods, name) == Some(e));
    assert(c2.items[e.item as int] == NearItem::Impl(i2));
    assert(spec_method_of(c2, name) == Some((i2.items@[e.member as int], i2)));
    assert(c2.init_methods.take(c1.init_methods.len() as int) =~= c1.init_methods);
    assert(c2.view_methods.take(c1.view_methods.len() as int) =~= c1.view_methods);
    assert(c2.change_methods.take(c1.change_methods.len() as int) =~= c1.change_methods);
}

} // verus!
