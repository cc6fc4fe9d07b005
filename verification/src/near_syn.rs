//! The declaration model and the attribute classifier.
//!
//! Source units arrive as already-parsed declaration trees.  The types here
//! hold, as plain values, exactly what the contract builder and the
//! projectors read from such a tree: names, marker attributes, doc-comment
//! lines, receivers, parameters and type expressions.  The classifier
//! methods are pure predicates over those markers.

use vstd::prelude::*;

verus! {

/// A type expression of the source language.
pub enum TypeExpr {
    /// A (possibly generic) named type: the joined path text and its
    /// type arguments.  A bare name carries no arguments.
    Path(String, Vec<TypeExpr>),
    /// A shared reference `&T`.
    Reference(Box<TypeExpr>),
    /// A parenthesized single type `(T)`.
    Paren(Box<TypeExpr>),
    /// The unit type `()` or a tuple `(T1, ..., Tn)`.
    Tuple(Vec<TypeExpr>),
    /// Any shape the model does not represent (raw pointers, lifetime
    /// arguments, ...), carrying its source text.
    Unsupported(String),
}

/// A named parameter of a method, with its declared type.
pub struct ParamDecl {
    pub name: String,
    pub ty: TypeExpr,
}

/// A method declaration inside an `impl` block.
pub struct MethodDecl {
    pub name: String,
    /// Marker attribute names, such as `init`, `payable` or `private`.
    pub attrs: Vec<String>,
    /// Doc-comment lines, one entry per line, kept verbatim.
    pub docs: Vec<String>,
    /// Whether the method is declared `pub`.
    pub vis_public: bool,
    /// Whether the first input is a `self` receiver.
    pub has_receiver: bool,
    /// Whether that receiver is mutable.
    pub mut_receiver: bool,
    /// The named parameters after the receiver.
    pub params: Vec<ParamDecl>,
    /// The declared return type, if any.
    pub ret: Option<TypeExpr>,
}

/// A named field of a struct.
pub struct FieldDecl {
    pub name: String,
    pub docs: Vec<String>,
    pub ty: TypeExpr,
}

/// The field list of a struct declaration.
pub enum FieldsKind {
    Named(Vec<FieldDecl>),
    Unnamed(Vec<TypeExpr>),
    Unit,
}

/// A struct declaration.
pub struct StructDecl {
    pub name: String,
    pub attrs: Vec<String>,
    /// Names listed in `derive(...)` attributes.
    pub derives: Vec<String>,
    pub docs: Vec<String>,
    pub fields: FieldsKind,
}

/// A variant of an enum declaration.
pub struct VariantDecl {
    pub name: String,
    pub docs: Vec<String>,
}

/// An enum declaration.
pub struct EnumDecl {
    pub name: String,
    pub attrs: Vec<String>,
    pub derives: Vec<String>,
    pub docs: Vec<String>,
    pub variants: Vec<VariantDecl>,
}

/// A type-alias declaration.
pub struct AliasDecl {
    pub name: String,
    pub docs: Vec<String>,
    pub ty: TypeExpr,
}

/// A method signature inside a trait definition.
pub struct TraitMethodDecl {
    pub name: String,
    pub docs: Vec<String>,
}

/// A trait definition.
pub struct TraitDecl {
    pub name: String,
    pub docs: Vec<String>,
    pub methods: Vec<TraitMethodDecl>,
}

/// An `impl` block, either bare or implementing a named trait.
pub struct ImplDecl {
    pub attrs: Vec<String>,
    pub docs: Vec<String>,
    /// The implemented trait's name, if the block is a trait impl.
    pub trait_name: Option<String>,
    /// The type the block implements.
    pub self_ty: TypeExpr,
    /// The methods declared in the block.
    pub items: Vec<MethodDecl>,
}

/// A top-level declaration of a source unit.
pub enum Item {
    Impl(ImplDecl),
    Struct(StructDecl),
    Enum(EnumDecl),
    Type(AliasDecl),
    Trait(TraitDecl),
    /// An inline module; its declarations are flattened on ingestion.
    Mod(Vec<Item>),
}

/// One parsed source unit: its own doc lines and its declarations.
pub struct SourceFile {
    pub attrs: Vec<String>,
    pub items: Vec<Item>,
}

/// The error taxonomy.  Every error is fatal: it aborts the whole build.
#[derive(Debug, PartialEq, Eq)]
pub enum NearError {
    /// An implementation's owning type is not a simple name.
    MalformedSelfType,
    /// The type projector met a composite it does not recognize; carries
    /// the offending source text.
    UnsupportedTypeShape(String),
    /// A wrapper type was used with the wrong number of type arguments.
    GenericArityMismatch { wrapper: String, expected: usize, actual: usize },
    /// A zero-field serializable struct has no target form.
    UnitStructUnsupported,
}

/// The abstract value of a [`NearError`]: the same taxonomy over
/// character sequences.
pub enum ErrorView {
    MalformedSelfType,
    UnsupportedTypeShape(Seq<char>),
    GenericArityMismatch(Seq<char>, int, int),
    UnitStructUnsupported,
}

impl View for NearError {
    type V = ErrorView;

    open spec fn view(&self) -> ErrorView {
        match self {
            NearError::MalformedSelfType => ErrorView::MalformedSelfType,
            NearError::UnsupportedTypeShape(t) => ErrorView::UnsupportedTypeShape(t@),
            NearError::GenericArityMismatch { wrapper, expected, actual } =>
                ErrorView::GenericArityMismatch(wrapper@, *expected as int, *actual as int),
            NearError::UnitStructUnsupported => ErrorView::UnitStructUnsupported,
        }
    }
}

/// Whether `attrs` holds an attribute whose text is `name`.
pub open spec fn spec_has_attr(attrs: Seq<String>, name: Seq<char>) -> bool {
    exists|i: int| 0 <= i < attrs.len() && #[trigger] attrs[i]@ == name
}

/// Returns `true` if `attrs` contain `attr_name`.
/// Returns `false` otherwise.
pub fn has_attr(attrs: &Vec<String>, attr_name: &str) -> (r: bool)
    ensures
        r == spec_has_attr(attrs@, attr_name@),
{
    let mut i: usize = 0;
    while i < attrs.len()
        invariant
            i <= attrs.len(),
            forall|j: int| 0 <= j < i ==> #[trigger] attrs@[j]@ != attr_name@,
        decreases attrs.len() - i,
    {
        if crate::str_eq(attrs[i].as_str(), attr_name) {
            return true;
        }
        i = i + 1;
    }
    false
}

/// Returns `true` if any of the names under `derive(...)` is `macro_name`.
/// Returns `false` otherwise.
pub fn derives(derive_names: &Vec<String>, macro_name: &str) -> (r: bool)
    ensures
        r == spec_has_attr(derive_names@, macro_name@),
{
    has_attr(derive_names, macro_name)
}

/// Defines standard attributes found in the Near SDK.
pub trait NearImpl {
    /// Whether this implementation is marked as `near_bindgen`.
    spec fn spec_is_bindgen(&self) -> bool;

    /// Whether this implementation has any exported method.
    spec fn spec_has_exported_methods(&self) -> bool;

    /// The implemented trait's name, if any.
    spec fn spec_trait_name(&self) -> Option<Seq<char>>;

    /// The owning type's name, if it is a simple name.
    spec fn spec_impl_name(&self) -> Option<Seq<char>>;

    /// Returns whether the given `self` implementation is marked as `near_bindgen`.
    fn is_bindgen(&self) -> (r: bool)
        ensures
            r == self.spec_is_bindgen(),
    ;

    /// Returns whether the given `self` implementation has any exported method.
    fn has_exported_methods(&self) -> (r: bool)
        ensures
            r == self.spec_has_exported_methods(),
    ;

    /// Returns the name of the trait this `impl` implements, if any.
    fn get_trait_name(&self) -> (r: Option<String>)
        ensures
            match r {
                Some(n) => self.spec_trait_name() matches Some(t) && t == n@,
                None => self.spec_trait_name() is None,
            },
    ;

    /// Returns the name of the type this `impl` implements, if it is a
    /// simple name.
    fn get_impl_name(&self) -> (r: Option<String>)
        ensures
            match r {
                Some(n) => self.spec_impl_name() matches Some(t) && t == n@,
                None => self.spec_impl_name() is None,
            },
    ;
}

/// Defines standard attributes and helper methods used when exporting a contract.
pub trait NearMethod {
    /// Whether the method is declared `pub`.
    spec fn spec_is_public(&self) -> bool;

    /// Whether the method takes a mutable receiver.
    spec fn spec_is_mut(&self) -> bool;

    /// Whether the method carries the `init` lifecycle marker.
    spec fn spec_is_init(&self) -> bool;

    /// Whether the method carries the `payable` marker.
    spec fn spec_is_payable(&self) -> bool;

    /// Whether the method carries the `private` marker.
    spec fn spec_is_private(&self) -> bool;

    /// Whether the method is exported from the given implementation:
    /// it is public or the implementation names a trait, and the method
    /// is not marked private.
    spec fn spec_is_exported(&self, input: &ImplDecl) -> bool;

    /// Returns whether the given `self` method is declared as `pub`.
    fn is_public(&self) -> (r: bool)
        ensures
            r == self.spec_is_public(),
    ;

    /// Returns whether the given `self` method is declared as `mut`.
    fn is_mut(&self) -> (r: bool)
        ensures
            r == self.spec_is_mut(),
    ;

    /// Returns whether the given `self` method is marked as `init`.
    fn is_init(&self) -> (r: bool)
        ensures
            r == self.spec_is_init(),
    ;

    /// Returns whether the given `self` method is marked as `payable`.
    fn is_payable(&self) -> (r: bool)
        ensures
            r == self.spec_is_payable(),
    ;

    /// Returns whether the given `self` method is marked as `private`.
    fn is_private(&self) -> (r: bool)
        ensures
            r == self.spec_is_private(),
    ;

    /// Returns whether the given `self` method in `input` impl is being exported.
    fn is_exported(&self, input: &ImplDecl) -> (r: bool)
        ensures
            r == self.spec_is_exported(input),
    ;
}

/// Defines helper methods to deal with Near serializable declarations.
pub trait NearStruct {
    /// Whether the declaration derives `Serialize`.
    spec fn spec_is_serialize(&self) -> bool;

    /// Whether the declaration derives `Deserialize`.
    spec fn spec_is_deserialize(&self) -> bool;

    /// Whether the declaration derives either of the two.
    spec fn spec_is_serde(&self) -> bool;

    /// Returns whether the given `self` declaration derives `serde::Serialize`.
    fn is_serialize(&self) -> (r: bool)
        ensures
            r == self.spec_is_serialize(),
    ;

    /// Returns whether the given `self` declaration derives `serde::Deserialize`.
    fn is_deserialize(&self) -> (r: bool)
        ensures
            r == self.spec_is_deserialize(),
    ;

    /// Returns whether the given `self` declaration derives either
    /// `serde::Serialize` or `serde::Deserialize`.
    fn is_serde(&self) -> (r: bool)
        ensures
            r == self.spec_is_serde(),
    ;
}

impl NearImpl for ImplDecl {
    open spec fn spec_is_bindgen(&self) -> bool {
        spec_has_attr(self.attrs@, "near_bindgen"@)
    }

    open spec fn spec_has_exported_methods(&self) -> bool {
        exists|i: int|
            0 <= i < self.items@.len() && (#[trigger] self.items@[i]).spec_is_exported(self)
    }

    open spec fn spec_trait_name(&self) -> Option<Seq<char>> {
        match self.trait_name {
            Some(n) => Some(n@),
            None => None,
        }
    }

    open spec fn spec_impl_name(&self) -> Option<Seq<char>> {
        match self.self_ty {
            TypeExpr::Path(n, _) => Some(n@),
            _ => None,
        }
    }

    fn is_bindgen(&self) -> (r: bool)
    {
        has_attr(&self.attrs, "near_bindgen")
    }

    fn has_exported_methods(&self) -> (r: bool)
    {
        let mut i: usize = 0;
        while i < self.items.len()
            invariant
                i <= self.items.len(),
                forall|j: int| 0 <= j < i ==>
                    !(#[trigger] self.items@[j]).spec_is_exported(self),
            decreases self.items.len() - i,
        {
            if self.items[i].is_exported(self) {
                return true;
            }
            i = i + 1;
        }
        false
    }

    fn get_trait_name(&self) -> (r: Option<String>)
    {
        match &self.trait_name {
            Some(n) => Some(n.clone()),
            None => None,
        }
    }

    fn get_impl_name(&self) -> (r: Option<String>)
    {
        match &self.self_ty {
            TypeExpr::Path(n, _) => Some(n.clone()),
            _ => None,
        }
    }
}

impl NearMethod for MethodDecl {
    open spec fn spec_is_public(&self) -> bool {
        self.vis_public
    }

    open spec fn spec_is_mut(&self) -> bool {
        self.has_receiver && self.mut_receiver
    }

    open spec fn spec_is_init(&self) -> bool {
        spec_has_attr(self.attrs@, "init"@)
    }

    open spec fn spec_is_payable(&self) -> bool {
        spec_has_attr(self.attrs@, "payable"@)
    }

    open spec fn spec_is_private(&self) -> bool {
        spec_has_attr(self.attrs@, "private"@)
    }

    open spec fn spec_is_exported(&self, input: &ImplDecl) -> bool {
        (self.spec_is_public() || input.trait_name is Some) && !self.spec_is_private()
    }

    fn is_public(&self) -> (r: bool)
    {
        self.vis_public
    }

    fn is_mut(&self) -> (r: bool)
    {
        self.has_receiver && self.mut_receiver
    }

    fn is_init(&self) -> (r: bool)
    {
        has_attr(&self.attrs, "init")
    }

    fn is_payable(&self) -> (r: bool)
    {
        has_attr(&self.attrs, "payable")
    }

    fn is_private(&self) -> (r: bool)
    {
        has_attr(&self.attrs, "private")
    }

    fn is_exported(&self, input: &ImplDecl) -> (r: bool)
    {
        (self.is_public() || input.trait_name.is_some()) && !self.is_private()
    }
}

impl NearStruct for StructDecl {
    open spec fn spec_is_serialize(&self) -> bool {
        spec_has_attr(self.derives@, "Serialize"@)
    }

    open spec fn spec_is_deserialize(&self) -> bool {
        spec_has_attr(self.derives@, "Deserialize"@)
    }

    open spec fn spec_is_serde(&self) -> bool {
        self.spec_is_serialize() || self.spec_is_deserialize()
    }

    fn is_serialize(&self) -> (r: bool)
    {
        derives(&self.derives, "Serialize")
    }

    fn is_deserialize(&self) -> (r: bool)
    {
        derives(&self.derives, "Deserialize")
    }

    fn is_serde(&self) -> (r: bool)
    {
        self.is_serialize() || self.is_deserialize()
    }
}

impl NearStruct for EnumDecl {
    open spec fn spec_is_serialize(&self) -> bool {
        spec_has_attr(self.derives@, "Serialize"@)
    }

    open spec fn spec_is_deserialize(&self) -> bool {
        spec_has_attr(self.derives@, "Deserialize"@)
    }

    open spec fn spec_is_serde(&self) -> bool {
        self.spec_is_serialize() || self.spec_is_deserialize()
    }

    fn is_serialize(&self) -> (r: bool)
    {
        derives(&self.derives, "Serialize")
    }

    fn is_deserialize(&self) -> (r: bool)
    {
        derives(&self.derives, "Deserialize")
    }

    fn is_serde(&self) -> (r: bool)
    {
        self.is_serialize() || self.is_deserialize()
    }
}

/// The lifecycle category of an exported method.
#[derive(Clone, Copy, Debug, PartialEq, Eq, Structural)]
pub enum MethodKind {
    Init,
    View,
    Change,
}

/// The category an exported method belongs to: `init` wins over
/// mutability, a mutable receiver makes a change method, everything else
/// is a view method.
pub open spec fn spec_method_kind(m: MethodDecl) -> MethodKind {
    if m.spec_is_init() {
        MethodKind::Init
    } else if m.spec_is_mut() {
        MethodKind::Change
    } else {
        MethodKind::View
    }
}

/// Classifies a method into its lifecycle category.
pub fn method_kind(m: &MethodDecl) -> (k: MethodKind)
    ensures
        k == spec_method_kind(*m),
{
    if m.is_init() {
        MethodKind::Init
    } else if m.is_mut() {
        MethodKind::Change
    } else {
        MethodKind::View
    }
}

/// A method with an immutable receiver and no `init` marker is a view
/// method; a mutable receiver makes a change method regardless of other
/// markers; the `init` marker wins regardless of mutability.
pub proof fn lemma_method_classification(m: MethodDecl)
    ensures
        m.spec_is_init() ==> spec_method_kind(m) == MethodKind::Init,
        !m.spec_is_init() && m.spec_is_mut() ==> spec_method_kind(m) == MethodKind::Change,
        !m.spec_is_init() && !m.spec_is_mut() ==> spec_method_kind(m) == MethodKind::View,
{
}

/// A method of a trait implementation is exported even without an
/// explicit `pub`, unless it is marked private; a method of a bare
/// implementation is exported exactly when it is `pub` and not private.
pub proof fn lemma_export_rule(m: MethodDecl, i: ImplDecl)
    ensures
        i.trait_name is Some ==> m.spec_is_exported(&i) == !m.spec_is_private(),
        i.trait_name is None ==> m.spec_is_exported(&i) == (m.spec_is_public()
            && !m.spec_is_private()),
{
}

} // verus!
