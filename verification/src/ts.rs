//! Functions to project the declaration model to TypeScript text.

use vstd::prelude::*;
use vstd::string::StringExecFns;

use crate::contract::{
    Contract, ContractView, NearItem, spec_kind_names, spec_merged_docs, spec_merged_impl_docs,
};
use crate::near_syn::{
    ErrorView, ImplDecl, MethodDecl, MethodKind, NearError, NearImpl, NearMethod, NearStruct,
    TypeExpr,
};

verus! {

/// The associativity class of a projected type expression, ordered
/// `Scalar < Sequence < Nullable`; a looser-binding class is higher.
#[derive(Clone, Copy, Debug, PartialEq, Eq, Structural)]
pub enum Assoc {
    Scalar,
    Sequence,
    Nullable,
}

/// The numeric rank of an associativity class.
pub open spec fn spec_assoc_rank(a: Assoc) -> int {
    match a {
        Assoc::Scalar => 0,
        Assoc::Sequence => 1,
        Assoc::Nullable => 2,
    }
}

fn assoc_rank(a: Assoc) -> (r: u8)
    ensures
        r == spec_assoc_rank(a),
{
    match a {
        Assoc::Scalar => 0,
        Assoc::Sequence => 1,
        Assoc::Nullable => 2,
    }
}

/// Wraps `txt` in parentheses exactly when its class binds looser than
/// the embedding context's class.
pub open spec fn spec_use_paren(txt: Seq<char>, inner: Assoc, ctx: Assoc) -> Seq<char> {
    if spec_assoc_rank(inner) > spec_assoc_rank(ctx) {
        "("@ + txt + ")"@
    } else {
        txt
    }
}

fn use_paren(txt: String, inner: Assoc, ctx: Assoc) -> (r: String)
    ensures
        r@ == spec_use_paren(txt@, inner, ctx),
{
    if assoc_rank(inner) > assoc_rank(ctx) {
        let mut s = "(".to_owned();
        s.append(txt.as_str());
        s.append(")");
        assert(s@ =~= spec_use_paren(txt@, inner, ctx));
        s
    } else {
        txt
    }
}

/// The source text of a type expression, reconstructed from the model;
/// used to report unsupported shapes.
pub open spec fn spec_type_text(t: TypeExpr) -> Seq<char>
    decreases t,
{
    match t {
        TypeExpr::Path(name, args) => if args@.len() == 0 {
            name@
        } else {
            name@ + "<"@ + spec_type_text_list(args@) + ">"@
        },
        TypeExpr::Reference(inner) => "&"@ + spec_type_text(*inner),
        TypeExpr::Paren(inner) => "("@ + spec_type_text(*inner) + ")"@,
        TypeExpr::Tuple(elems) => "("@ + spec_type_text_list(elems@) + ")"@,
        TypeExpr::Unsupported(txt) => txt@,
    }
}

/// The comma-joined source text of a list of type expressions.
pub open spec fn spec_type_text_list(ts: Seq<TypeExpr>) -> Seq<char>
    decreases ts,
{
    if ts.len() == 0 {
        Seq::empty()
    } else if ts.len() == 1 {
        spec_type_text(ts.last())
    } else {
        spec_type_text_list(ts.drop_last()) + ", "@ + spec_type_text(ts.last())
    }
}

/// Reconstructs the source text of `t`, for error reports.
pub fn type_text(t: &TypeExpr) -> (r: String)
    ensures
        r@ == spec_type_text(*t),
    decreases *t,
{
    match t {
        TypeExpr::Path(name, args) => {
            if args.len() == 0 {
                name.clone()
            } else {
                let mut s = name.clone();
                s.append("<");
                let lst = type_text_list(args);
                s.append(lst.as_str());
                s.append(">");
                assert(s@ =~= spec_type_text(*t));
                s
            }
        },
        TypeExpr::Reference(inner) => {
            let mut s = "&".to_owned();
            let it = type_text(&**inner);
            s.append(it.as_str());
            assert(s@ =~= spec_type_text(*t));
            s
        },
        TypeExpr::Paren(inner) => {
            let mut s = "(".to_owned();
            let it = type_text(&**inner);
            s.append(it.as_str());
            s.append(")");
            assert(s@ =~= spec_type_text(*t));
            s
        },
        TypeExpr::Tuple(elems) => {
            let mut s = "(".to_owned();
            let lst = type_text_list(elems);
            s.append(lst.as_str());
            s.append(")");
            assert(s@ =~= spec_type_text(*t));
            s
        },
        TypeExpr::Unsupported(txt) => txt.clone(),
    }
}

fn type_text_list(ts: &Vec<TypeExpr>) -> (r: String)
    ensures
        r@ == spec_type_text_list(ts@),
    decreases ts@,
{
    let mut s = String::new();
    let mut i: usize = 0;
    while i < ts.len()
        invariant
            i <= ts.len(),
            s@ == spec_type_text_list(ts@.take(i as int)),
        decreases ts.len() - i,
    {
        assert(decreases_to!(ts@ => ts@[i as int]));
        let it = type_text(&ts[i]);
        if i != 0 {
            s.append(", ");
        }
        s.append(it.as_str());
        proof {
            assert(ts@.take(i as int + 1).drop_last() =~= ts@.take(i as int));
            assert(ts@.take(i as int + 1).last() == ts@[i as int]);
            assert(s@ =~= spec_type_text_list(ts@.take(i as int + 1)));
        }
        i = i + 1;
    }
    proof {
        assert(ts@.take(ts@.len() as int) =~= ts@);
    }
    s
}

/// The projection of a type expression: its TypeScript text and its
/// associativity class, or the error that rejects it.
///
/// Scalars map to fixed target names, unrecognized names pass through
/// verbatim, the nullable wrapper appends `|null`, sequence wrappers
/// append `[]`, map wrappers build a `Record<...>`, parenthesized
/// groupings are transparent, a single shared reference is transparent,
/// the empty tuple is `void` and larger tuples become bracketed lists.
/// A sub-expression is parenthesized exactly when its class binds looser
/// than its context.
pub open spec fn spec_ts_type(t: TypeExpr) -> Result<(Seq<char>, Assoc), ErrorView>
    decreases t,
{
    match t {
        TypeExpr::Path(name, args) => {
            let n = name@;
            if n == "bool"@ {
                Ok(("boolean"@, Assoc::Scalar))
            } else if n == "i8"@ || n == "u8"@ || n == "i16"@ || n == "u16"@ || n == "i32"@
                || n == "u32"@ || n == "i64"@ || n == "u64"@ {
                Ok(("number"@, Assoc::Scalar))
            } else if n == "String"@ {
                Ok(("string"@, Assoc::Scalar))
            } else if n == "Option"@ {
                if args@.len() != 1 {
                    Err(ErrorView::GenericArityMismatch("Option"@, 1, args@.len() as int))
                } else {
                    match spec_ts_type(args@[0]) {
                        Err(e) => Err(e),
                        Ok((txt, a)) => Ok(
                            (spec_use_paren(txt, a, Assoc::Nullable) + "|null"@, Assoc::Nullable),
                        ),
                    }
                }
            } else if n == "Vec"@ || n == "HashSet"@ || n == "BTreeSet"@ {
                if args@.len() != 1 {
                    Err(ErrorView::GenericArityMismatch("Vec"@, 1, args@.len() as int))
                } else {
                    match spec_ts_type(args@[0]) {
                        Err(e) => Err(e),
                        Ok((txt, a)) => Ok(
                            (spec_use_paren(txt, a, Assoc::Sequence) + "[]"@, Assoc::Sequence),
                        ),
                    }
                }
            } else if n == "HashMap"@ || n == "BTreeMap"@ {
                if args@.len() != 2 {
                    Err(ErrorView::GenericArityMismatch("HashMap"@, 2, args@.len() as int))
                } else {
                    match spec_ts_type(args@[0]) {
                        Err(e) => Err(e),
                        Ok((k, _)) => match spec_ts_type(args@[1]) {
                            Err(e) => Err(e),
                            Ok((v, _)) => Ok(
                                ("Record<"@ + k + ", "@ + v + ">"@, Assoc::Scalar),
                            ),
                        },
                    }
                }
            } else {
                Ok((n, Assoc::Scalar))
            }
        },
        TypeExpr::Reference(inner) => if *inner matches TypeExpr::Reference(_) {
            Err(ErrorView::UnsupportedTypeShape(spec_type_text(t)))
        } else {
            spec_ts_type(*inner)
        },
        TypeExpr::Paren(inner) => spec_ts_type(*inner),
        TypeExpr::Tuple(elems) => if elems@.len() == 0 {
            Ok(("void"@, Assoc::Scalar))
        } else {
            match spec_ts_type_list(elems@) {
                Err(e) => Err(e),
                Ok(lst) => Ok(("["@ + lst + "]"@, Assoc::Scalar)),
            }
        },
        TypeExpr::Unsupported(txt) => Err(ErrorView::UnsupportedTypeShape(txt@)),
    }
}

/// The comma-joined projection of a list of type expressions; the first
/// rejected element's error, if any, is the list's error.
pub open spec fn spec_ts_type_list(ts: Seq<TypeExpr>) -> Result<Seq<char>, ErrorView>
    decreases ts,
{
    if ts.len() == 0 {
        Ok(Seq::empty())
    } else {
        match spec_ts_type_list(ts.drop_last()) {
            Err(e) => Err(e),
            Ok(pre) => match spec_ts_type(ts.last()) {
                Err(e) => Err(e),
                Ok((txt, _)) => Ok(
                    if ts.len() == 1 {
                        txt
                    } else {
                        pre + ", "@ + txt
                    },
                ),
            },
        }
    }
}

fn ts_type_assoc(t: &TypeExpr) -> (r: Result<(String, Assoc), NearError>)
    ensures
        match r {
            Ok(p) => spec_ts_type(*t) matches Ok(q) && p.0@ == q.0 && p.1 == q.1,
            Err(e) => spec_ts_type(*t) matches Err(q) && e@ == q,
        },
    decreases *t,
{
    match t {
        TypeExpr::Path(name, args) => {
            let n = name.as_str();
            if crate::str_eq(n, "bool") {
                Ok(("boolean".to_owned(), Assoc::Scalar))
            } else if crate::str_eq(n, "i8") || crate::str_eq(n, "u8") || crate::str_eq(n, "i16")
                || crate::str_eq(n, "u16") || crate::str_eq(n, "i32") || crate::str_eq(n, "u32")
                || crate::str_eq(n, "i64") || crate::str_eq(n, "u64") {
                Ok(("number".to_owned(), Assoc::Scalar))
            } else if crate::str_eq(n, "String") {
                Ok(("string".to_owned(), Assoc::Scalar))
            } else if crate::str_eq(n, "Option") {
                if args.len() != 1 {
                    Err(NearError::GenericArityMismatch {
                        wrapper: "Option".to_owned(),
                        expected: 1,
                        actual: args.len(),
                    })
                } else {
                    assert(decreases_to!(*t => args@[0]));
                    match ts_type_assoc(&args[0]) {
                        Err(e) => Err(e),
                        Ok((txt, a)) => {
                            let mut s = use_paren(txt, a, Assoc::Nullable);
                            s.append("|null");
                            Ok((s, Assoc::Nullable))
                        },
                    }
                }
            } else if crate::str_eq(n, "Vec") || crate::str_eq(n, "HashSet")
                || crate::str_eq(n, "BTreeSet") {
                if args.len() != 1 {
                    Err(NearError::GenericArityMismatch {
                        wrapper: "Vec".to_owned(),
                        expected: 1,
                        actual: args.len(),
                    })
                } else {
                    assert(decreases_to!(*t => args@[0]));
                    match ts_type_assoc(&args[0]) {
                        Err(e) => Err(e),
                        Ok((txt, a)) => {
                            let mut s = use_paren(txt, a, Assoc::Sequence);
                            s.append("[]");
                            Ok((s, Assoc::Sequence))
                        },
                    }
                }
            } else if crate::str_eq(n, "HashMap") || crate::str_eq(n, "BTreeMap") {
                if args.len() != 2 {
                    Err(NearError::GenericArityMismatch {
                        wrapper: "HashMap".to_owned(),
                        expected: 2,
                        actual: args.len(),
                    })
                } else {
                    assert(decreases_to!(*t => args@[0]));
                    assert(decreases_to!(*t => args@[1]));
                    match ts_type_assoc(&args[0]) {
                        Err(e) => Err(e),
                        Ok((k, _)) => match ts_type_assoc(&args[1]) {
                            Err(e) => Err(e),
                            Ok((v, _)) => {
                                let mut s = "Record<".to_owned();
                                s.append(k.as_str());
                                s.append(", ");
                                s.append(v.as_str());
                                s.append(">");
                                proof {
                                    let q = spec_ts_type(*t)->Ok_0;
                                    assert(s@ =~= q.0);
                                }
                                Ok((s, Assoc::Scalar))
                            },
                        },
                    }
                }
            } else {
                Ok((name.clone(), Assoc::Scalar))
            }
        },
        TypeExpr::Reference(inner) => {
            let nested = match &**inner {
                TypeExpr::Reference(_) => true,
                _ => false,
            };
            if nested {
                Err(NearError::UnsupportedTypeShape(type_text(t)))
            } else {
                ts_type_assoc(&**inner)
            }
        },
        TypeExpr::Paren(inner) => ts_type_assoc(&**inner),
        TypeExpr::Tuple(elems) => {
            if elems.len() == 0 {
                Ok(("void".to_owned(), Assoc::Scalar))
            } else {
                match ts_type_list(elems) {
                    Err(e) => Err(e),
                    Ok(lst) => {
                        let mut s = "[".to_owned();
                        s.append(lst.as_str());
                        s.append("]");
                        proof {
                            let q = spec_ts_type(*t)->Ok_0;
                            assert(s@ =~= q.0);
                        }
                        Ok((s, Assoc::Scalar))
                    },
                }
            }
        },
        TypeExpr::Unsupported(txt) => Err(NearError::UnsupportedTypeShape(txt.clone())),
    }
}

fn ts_type_list(ts: &Vec<TypeExpr>) -> (r: Result<String, NearError>)
    ensures
        match r {
            Ok(s) => spec_ts_type_list(ts@) matches Ok(q) && s@ == q,
            Err(e) => spec_ts_type_list(ts@) matches Err(q) && e@ == q,
        },
    decreases ts@,
{
    let mut s = String::new();
    let mut i: usize = 0;
    while i < ts.len()
        invariant
            i <= ts.len(),
            spec_ts_type_list(ts@.take(i as int)) matches Ok(q) && s@ == q,
        decreases ts.len() - i,
    {
        assert(decreases_to!(ts@ => ts@[i as int]));
        let elem = match ts_type_assoc(&ts[i]) {
            Ok(p) => p.0,
            Err(e) => {
                proof {
                    lemma_ts_type_list_err(ts@, i as int);
                }
                return Err(e);
            },
        };
        if i != 0 {
            s.append(", ");
        }
        s.append(elem.as_str());
        proof {
            assert(ts@.take(i as int + 1).drop_last() =~= ts@.take(i as int));
            assert(ts@.take(i as int + 1).last() == ts@[i as int]);
            assert(s@ =~= spec_ts_type_list(ts@.take(i as int + 1))->Ok_0);
        }
        i = i + 1;
    }
    proof {
        assert(ts@.take(ts@.len() as int) =~= ts@);
    }
    Ok(s)
}

/// If every element before `i` projects and element `i` is rejected,
/// the whole list is rejected with element `i`'s error.
proof fn lemma_ts_type_list_err(ts: Seq<TypeExpr>, i: int)
    requires
        0 <= i < ts.len(),
        spec_ts_type_list(ts.take(i)) is Ok,
        spec_ts_type(ts[i]) is Err,
    ensures
        spec_ts_type_list(ts) == Err::<Seq<char>, ErrorView>(spec_ts_type(ts[i])->Err_0),
    decreases ts.len(),
{
    if i == ts.len() - 1 {
        assert(ts.drop_last() =~= ts.take(i));
        assert(ts.last() == ts[i]);
    } else {
        assert(ts.drop_last().take(i) =~= ts.take(i));
        assert(ts.drop_last()[i] == ts[i]);
        lemma_ts_type_list_err(ts.drop_last(), i);
    }
}

/// Return the TypeScript equivalent type of the source type represented
/// by `ty`, or the error that rejects it.
pub fn ts_type(ty: &TypeExpr) -> (r: Result<String, NearError>)
    ensures
        match r {
            Ok(s) => spec_ts_type(*ty) matches Ok(q) && s@ == q.0,
            Err(e) => spec_ts_type(*ty) matches Err(q) && e@ == q,
        },
{
    match ts_type_assoc(ty) {
        Ok(p) => Ok(p.0),
        Err(e) => Err(e),
    }
}


/// Length and leading-character facts about the fixed scalar and
/// wrapper names, enough to tell every pair of them apart.
proof fn lemma_name_facts()
    ensures
        "bool"@.len() == 4,
        "i8"@.len() == 2,
        "u8"@.len() == 2,
        "i16"@.len() == 3,
        "u16"@.len() == 3,
        "i32"@.len() == 3,
        "u32"@.len() == 3,
        "i64"@.len() == 3,
        "u64"@.len() == 3,
        "String"@.len() == 6,
        "Option"@.len() == 6,
        "String"@[0] == 'S',
        "Option"@[0] == 'O',
        "Vec"@.len() == 3,
        "Vec"@[0] == 'V',
        "i16"@[0] == 'i',
        "u16"@[0] == 'u',
        "i32"@[0] == 'i',
        "u32"@[0] == 'u',
        "i64"@[0] == 'i',
        "u64"@[0] == 'u',
        "HashSet"@.len() == 7,
        "HashMap"@.len() == 7,
        "HashSet"@[4] == 'S',
        "HashMap"@[4] == 'M',
        "BTreeSet"@.len() == 8,
        "BTreeMap"@.len() == 8,
        "BTreeSet"@[5] == 'S',
        "BTreeMap"@[5] == 'M',
{
    reveal_strlit("bool");
    reveal_strlit("i8");
    reveal_strlit("u8");
    reveal_strlit("i16");
    reveal_strlit("u16");
    reveal_strlit("i32");
    reveal_strlit("u32");
    reveal_strlit("i64");
    reveal_strlit("u64");
    reveal_strlit("String");
    reveal_strlit("Option");
    reveal_strlit("Vec");
    reveal_strlit("HashSet");
    reveal_strlit("BTreeSet");
    reveal_strlit("HashMap");
    reveal_strlit("BTreeMap");
}

/// Nullable of nullable never collapses: projecting `Option<Option<T>>`
/// appends one more `|null` to the projection of `Option<T>`, with no
/// parentheses added.
pub proof fn lemma_nullable_never_collapses(outer: TypeExpr, inner: TypeExpr)
    requires
        outer matches TypeExpr::Path(n, args) && n@ == "Option"@ && args@ =~= seq![inner],
        inner matches TypeExpr::Path(n, args) && n@ == "Option"@ && args@.len() == 1,
        spec_ts_type(inner) is Ok,
    ensures
        spec_ts_type(outer) is Ok,
        spec_ts_type(outer)->Ok_0.0 == spec_ts_type(inner)->Ok_0.0 + "|null"@,
        spec_ts_type(outer)->Ok_0.1 == Assoc::Nullable,
{
    lemma_name_facts();
    let (txt, a) = spec_ts_type(inner)->Ok_0;
    assert(a == Assoc::Nullable);
    assert(spec_use_paren(txt, a, Assoc::Nullable) == txt);
}

/// Sequence of nullable parenthesizes; nullable of sequence does not:
/// projecting `Vec<Option<T>>` wraps the inner projection in parentheses
/// before `[]`, while `Option<Vec<T>>` appends `|null` bare.
pub proof fn lemma_sequence_nullable_parens(seq_of_opt: TypeExpr, opt: TypeExpr,
    opt_of_seq: TypeExpr, sq: TypeExpr)
    requires
        seq_of_opt matches TypeExpr::Path(n, args) && n@ == "Vec"@ && args@ =~= seq![opt],
        opt matches TypeExpr::Path(n, args) && n@ == "Option"@ && args@.len() == 1,
        spec_ts_type(opt) is Ok,
        opt_of_seq matches TypeExpr::Path(n, args) && n@ == "Option"@ && args@ =~= seq![sq],
        sq matches TypeExpr::Path(n, args) && n@ == "Vec"@ && args@.len() == 1,
        spec_ts_type(sq) is Ok,
    ensures
        spec_ts_type(seq_of_opt) is Ok,
        spec_ts_type(seq_of_opt)->Ok_0.0 == "("@ + spec_ts_type(opt)->Ok_0.0 + ")"@ + "[]"@,
        spec_ts_type(opt_of_seq) is Ok,
        spec_ts_type(opt_of_seq)->Ok_0.0 == spec_ts_type(sq)->Ok_0.0 + "|null"@,
{
    lemma_name_facts();
    let (to, ao) = spec_ts_type(opt)->Ok_0;
    assert(ao == Assoc::Nullable);
    assert(spec_use_paren(to, ao, Assoc::Sequence) == "("@ + to + ")"@);
    let (tsq, asq) = spec_ts_type(sq)->Ok_0;
    assert(asq == Assoc::Sequence);
    assert(spec_use_paren(tsq, asq, Assoc::Nullable) == tsq);
}

/// Every wrapper type enforces its fixed arity: a nullable, sequence or
/// map wrapper applied to a different number of type arguments is
/// rejected with an arity mismatch naming the wrapper and both counts.
pub proof fn lemma_wrapper_arity(t: TypeExpr)
    requires
        t matches TypeExpr::Path(n, args)
            && (n@ == "Option"@ && args@.len() != 1
            || (n@ == "Vec"@ || n@ == "HashSet"@ || n@ == "BTreeSet"@) && args@.len() != 1
            || (n@ == "HashMap"@ || n@ == "BTreeMap"@) && args@.len() != 2),
    ensures
        spec_ts_type(t) is Err,
        ({
            let n = t->Path_0;
            let args = t->Path_1;
            spec_ts_type(t)->Err_0 == ErrorView::GenericArityMismatch(
                if n@ == "Option"@ {
                    "Option"@
                } else if n@ == "HashMap"@ || n@ == "BTreeMap"@ {
                    "HashMap"@
                } else {
                    "Vec"@
                },
                if n@ == "HashMap"@ || n@ == "BTreeMap"@ {
                    2int
                } else {
                    1int
                },
                args@.len() as int,
            )
        }),
{
    lemma_name_facts();
}


/// The elements of `ss` joined by `sep`.
pub open spec fn spec_join(ss: Seq<Seq<char>>, sep: Seq<char>) -> Seq<char>
    decreases ss.len(),
{
    if ss.len() == 0 {
        Seq::empty()
    } else if ss.len() == 1 {
        ss.last()
    } else {
        spec_join(ss.drop_last(), sep) + sep + ss.last()
    }
}

/// Joins a list of strings with a separator.
fn join_strings(list: &Vec<String>, sep: &str) -> (r: String)
    ensures
        r@ == spec_join(list.deep_view(), sep@),
{
    let ghost dv = list.deep_view();
    let mut r = String::new();
    let mut i: usize = 0;
    assert(dv.take(0) =~= Seq::<Seq<char>>::empty());
    while i < list.len()
        invariant
            i <= list.len(),
            dv == list.deep_view(),
            dv.len() == list@.len(),
            forall|k: int| 0 <= k < list@.len() ==> #[trigger] dv[k] == list@[k]@,
            r@ == spec_join(dv.take(i as int), sep@),
        decreases list.len() - i,
    {
        if i != 0 {
            r.append(sep);
        }
        r.append(list[i].as_str());
        proof {
            assert(dv.take(i as int + 1).drop_last() =~= dv.take(i as int));
            assert(dv.take(i as int + 1).last() == dv[i as int]);
            assert(r@ =~= spec_join(dv.take(i as int + 1), sep@));
        }
        i = i + 1;
    }
    proof {
        assert(dv.take(dv.len() as int) =~= dv);
    }
    r
}

/// The decimal digit character for `d`.
pub open spec fn spec_digit(d: nat) -> char {
    if d == 0 {
        '0'
    } else if d == 1 {
        '1'
    } else if d == 2 {
        '2'
    } else if d == 3 {
        '3'
    } else if d == 4 {
        '4'
    } else if d == 5 {
        '5'
    } else if d == 6 {
        '6'
    } else if d == 7 {
        '7'
    } else if d == 8 {
        '8'
    } else {
        '9'
    }
}

/// The decimal text of `n`.
pub open spec fn spec_dec(n: nat) -> Seq<char>
    decreases n,
{
    if n < 10 {
        seq![spec_digit(n)]
    } else {
        spec_dec(n / 10) + seq![spec_digit(n % 10)]
    }
}

fn digit_str(d: u32) -> (r: &'static str)
    requires
        d < 10,
    ensures
        r@ =~= seq![spec_digit(d as nat)],
{
    proof {
        reveal_strlit("0");
        reveal_strlit("1");
        reveal_strlit("2");
        reveal_strlit("3");
        reveal_strlit("4");
        reveal_strlit("5");
        reveal_strlit("6");
        reveal_strlit("7");
        reveal_strlit("8");
        reveal_strlit("9");
    }
    if d == 0 {
        "0"
    } else if d == 1 {
        "1"
    } else if d == 2 {
        "2"
    } else if d == 3 {
        "3"
    } else if d == 4 {
        "4"
    } else if d == 5 {
        "5"
    } else if d == 6 {
        "6"
    } else if d == 7 {
        "7"
    } else if d == 8 {
        "8"
    } else {
        "9"
    }
}

/// Renders `n` in decimal.
fn u32_dec(n: u32) -> (r: String)
    ensures
        r@ == spec_dec(n as nat),
    decreases n,
{
    if n < 10 {
        digit_str(n).to_owned()
    } else {
        let mut s = u32_dec(n / 10);
        s.append(digit_str(n % 10));
        assert(s@ =~= spec_dec(n as nat));
        s
    }
}

/// The projected `name: type` pieces of a parameter list; the first
/// rejected parameter's error, if any, is the list's error.
pub open spec fn spec_arg_pieces(params: Seq<crate::near_syn::ParamDecl>) -> Result<
    Seq<Seq<char>>,
    ErrorView,
>
    decreases params.len(),
{
    if params.len() == 0 {
        Ok(Seq::empty())
    } else {
        match spec_arg_pieces(params.drop_last()) {
            Err(e) => Err(e),
            Ok(pre) => match spec_ts_type(params.last().ty) {
                Err(e) => Err(e),
                Ok((t, _)) => Ok(pre.push(params.last().name@ + ": "@ + t)),
            },
        }
    }
}

/// If every parameter before `i` projects and parameter `i` is
/// rejected, the whole list is rejected with parameter `i`'s error.
proof fn lemma_arg_pieces_err(params: Seq<crate::near_syn::ParamDecl>, i: int)
    requires
        0 <= i < params.len(),
        spec_arg_pieces(params.take(i)) is Ok,
        spec_ts_type(params[i].ty) is Err,
    ensures
        spec_arg_pieces(params) == Err::<Seq<Seq<char>>, ErrorView>(
            spec_ts_type(params[i].ty)->Err_0,
        ),
    decreases params.len(),
{
    if i == params.len() - 1 {
        assert(params.drop_last() =~= params.take(i));
        assert(params.last() == params[i]);
    } else {
        assert(params.drop_last().take(i) =~= params.take(i));
        assert(params.drop_last()[i] == params[i]);
        lemma_arg_pieces_err(params.drop_last(), i);
    }
}

/// The exported signature of a method.
///
/// The named parameters are packed into one aggregate `args` object,
/// omitted when there are none.  An `init` method denotes a
/// construction request: its form is the aggregate alone.  Any other
/// method projects its return type (`void` when absent, and the bare
/// `Promise` marker also becomes `void`), wraps it in `Promise`, and
/// appends an optional `gas` slot when the receiver is mutable, then an
/// optional `amount` slot when the method is payable.
pub open spec fn spec_ts_sig(m: crate::near_syn::MethodDecl) -> Result<Seq<char>, ErrorView> {
    match spec_arg_pieces(m.params@) {
        Err(e) => Err(e),
        Ok(pieces) => {
            let args = spec_join(pieces, ", "@);
            if m.spec_is_init() {
                Ok(m.name@ + ": { "@ + args + " };"@)
            } else {
                match (match m.ret {
                    None => Ok(("void"@, Assoc::Scalar)),
                    Some(t) => spec_ts_type(t),
                }) {
                    Err(e) => Err(e),
                    Ok((txt, _)) => {
                        let ret = if txt == "Promise"@ {
                            "void"@
                        } else {
                            txt
                        };
                        let decl = (if m.params@.len() > 0 {
                            seq![("args: { "@ + args + " }"@)]
                        } else {
                            Seq::<Seq<char>>::empty()
                        }) + (if m.spec_is_mut() {
                            seq![("gas?: any"@)]
                        } else {
                            Seq::<Seq<char>>::empty()
                        }) + (if m.spec_is_payable() {
                            seq![("amount?: any"@)]
                        } else {
                            Seq::<Seq<char>>::empty()
                        });
                        Ok(m.name@ + "("@ + spec_join(decl, ", "@) + "): Promise<"@ + ret + ">;"@)
                    },
                }
            }
        },
    }
}

/// Returns the signature of the given method as a TypeScript method
/// definition, or the error that rejects one of its types.
pub fn ts_sig(method: &crate::near_syn::MethodDecl) -> (r: Result<String, NearError>)
    ensures
        match r {
            Ok(s) => spec_ts_sig(*method) matches Ok(q) && s@ == q,
            Err(e) => spec_ts_sig(*method) matches Err(q) && e@ == q,
        },
{
    let mut args: Vec<String> = Vec::new();
    let mut i: usize = 0;
    assert(args.deep_view() =~= spec_arg_pieces(method.params@.take(0))->Ok_0);
    while i < method.params.len()
        invariant
            i <= method.params@.len(),
            spec_arg_pieces(method.params@.take(i as int)) matches Ok(q) && args.deep_view() == q,
        decreases method.params@.len() - i,
    {
        let p = &method.params[i];
        let t = match ts_type(&p.ty) {
            Ok(t) => t,
            Err(e) => {
                proof {
                    lemma_arg_pieces_err(method.params@, i as int);
                }
                return Err(e);
            },
        };
        let mut piece = p.name.clone();
        piece.append(": ");
        piece.append(t.as_str());
        let ghost before = args.deep_view();
        args.push(piece);
        proof {
            assert(method.params@.take(i as int + 1).drop_last() =~= method.params@.take(i as int));
            assert(method.params@.take(i as int + 1).last() == method.params@[i as int]);
            assert(args.deep_view() =~~= before.push(piece@));
            assert(piece@ =~= method.params@[i as int].name@ + ": "@ + t@);
            assert(args.deep_view() =~~= spec_arg_pieces(method.params@.take(i as int + 1))->Ok_0);
        }
        i = i + 1;
    }
    proof {
        assert(method.params@.take(method.params@.len() as int) =~= method.params@);
    }
    let args_s = join_strings(&args, ", ");
    if method.is_init() {
        let mut s = method.name.clone();
        s.append(": { ");
        s.append(args_s.as_str());
        s.append(" };");
        proof {
            assert(s@ =~= spec_ts_sig(*method)->Ok_0);
        }
        Ok(s)
    } else {
        let ret = match &method.ret {
            None => "void".to_owned(),
            Some(t) => match ts_type(t) {
                Ok(txt) => {
                    if crate::str_eq(txt.as_str(), "Promise") {
                        "void".to_owned()
                    } else {
                        txt
                    }
                },
                Err(e) => {
                    return Err(e);
                },
            },
        };
        let mut args_decl: Vec<String> = Vec::new();
        if args.len() > 0 {
            let mut a = "args: { ".to_owned();
            a.append(args_s.as_str());
            a.append(" }");
            args_decl.push(a);
        }
        if method.is_mut() {
            args_decl.push("gas?: any".to_owned());
        }
        if method.is_payable() {
            args_decl.push("amount?: any".to_owned());
        }
        let decl = join_strings(&args_decl, ", ");
        proof {
            let pieces = spec_arg_pieces(method.params@)->Ok_0;
            let argsv = spec_join(pieces, ", "@);
            let specdecl = (if method.params@.len() > 0 {
                seq![("args: { "@ + argsv + " }"@)]
            } else {
                Seq::<Seq<char>>::empty()
            }) + (if method.spec_is_mut() {
                seq![("gas?: any"@)]
            } else {
                Seq::<Seq<char>>::empty()
            }) + (if method.spec_is_payable() {
                seq![("amount?: any"@)]
            } else {
                Seq::<Seq<char>>::empty()
            });
            assert(args_decl.deep_view() =~~= specdecl);
        }
        let mut s = method.name.clone();
        s.append("(");
        s.append(decl.as_str());
        s.append("): Promise<");
        s.append(ret.as_str());
        s.append(">;");
        proof {
            assert(s@ =~= spec_ts_sig(*method)->Ok_0);
        }
        Ok(s)
    }
}


/// Represents a pass over the contract model to generate TypeScript
/// bindings.
pub struct TS {
    /// The name of the contract to export.
    pub name: String,
    /// Counts the bare implementation blocks seen so far; each is
    /// exported as interface `Self<count>`.
    pub impl_count: u32,
    /// The exported interface names, in emission order.
    pub interfaces: Vec<String>,
    /// The exported view method names.
    pub view_methods: Vec<String>,
    /// The exported change method names.
    pub change_methods: Vec<String>,
    /// Output buffer where the generated TypeScript bindings are stored.
    pub buf: String,
}

/// The abstract state of a [`TS`] emitter.
#[verifier::ext_equal]
pub struct TSView {
    pub name: Seq<char>,
    pub impl_count: u32,
    pub interfaces: Seq<Seq<char>>,
    pub view_methods: Seq<String>,
    pub change_methods: Seq<String>,
    pub buf: Seq<char>,
}

impl View for TS {
    type V = TSView;

    open spec fn view(&self) -> TSView {
        TSView {
            name: self.name@,
            impl_count: self.impl_count,
            interfaces: self.interfaces.deep_view(),
            view_methods: self.view_methods@,
            change_methods: self.change_methods@,
            buf: self.buf@,
        }
    }
}

/// The doc-comment body lines: each line trimmed, between `*` markers.
pub open spec fn spec_doc_lines(docs: Seq<String>, indent: Seq<char>) -> Seq<char>
    decreases docs.len(),
{
    if docs.len() == 0 {
        Seq::empty()
    } else {
        spec_doc_lines(docs.drop_last(), indent) + indent + " * "@ + crate::spec_trim(
            docs.last()@,
        ) + "\n"@
    }
}

/// A whole doc-comment block at the given indentation.
pub open spec fn spec_ts_doc(docs: Seq<String>, indent: Seq<char>) -> Seq<char> {
    indent + "/**\n"@ + spec_doc_lines(docs, indent) + indent + " */\n"@
}

/// The common prelude: the generation banner naming the generating
/// tool, its version and its repository, and the common NEAR SDK type
/// aliases.
pub open spec fn spec_ts_prelude(
    bin: Seq<char>,
    version: Seq<char>,
    repository: Seq<char>,
    now: Seq<char>,
) -> Seq<char> {
    "// TypeScript bindings generated with "@ + bin + " v"@ + version + " "@ + repository + now
        + "\n\n"@ + "// Exports common NEAR Rust SDK types\n"@ + "export type U64 = string;\n"@
        + "export type I64 = string;\n"@ + "export type U128 = string;\n"@
        + "export type I128 = string;\n"@ + "export type AccountId = string;\n"@
        + "export type ValidAccountId = string;\n"@ + "\n"@
}

/// The main exported type: the contract name as the intersection of the
/// exported interfaces; empty unless both the name and the interface
/// list are set.
pub open spec fn spec_ts_main_type(name: Seq<char>, interfaces: Seq<Seq<char>>) -> Seq<char> {
    if name.len() == 0 || interfaces.len() == 0 {
        Seq::empty()
    } else {
        "export type "@ + name + " = "@ + spec_join(interfaces, " & "@) + ";\n\n"@
    }
}

/// One quoted method name per line, for the methods object.
pub open spec fn spec_method_list(names: Seq<String>) -> Seq<char>
    decreases names.len(),
{
    if names.len() == 0 {
        Seq::empty()
    } else {
        spec_method_list(names.drop_last()) + "        \""@ + names.last()@ + "\",\n"@
    }
}

/// The methods object: the view and change method names, in emission
/// order, under the contract's name.
pub open spec fn spec_ts_contract_methods(
    name: Seq<char>,
    view: Seq<String>,
    change: Seq<String>,
) -> Seq<char> {
    "export const "@ + name + "Methods = {\n"@ + "    viewMethods: [\n"@ + spec_method_list(view)
        + "    ],\n"@ + "    changeMethods: [\n"@ + spec_method_list(change) + "    ],\n"@
        + "};\n"@
}

impl TS {
    /// Creates a new `TS` instance emitting into `buf`.
    pub fn new(buf: String) -> (r: Self)
        ensures
            r@ == (TSView {
                name: Seq::empty(),
                impl_count: 0,
                interfaces: Seq::empty(),
                view_methods: Seq::empty(),
                change_methods: Seq::empty(),
                buf: buf@,
            }),
    {
        let r = TS {
            name: String::new(),
            impl_count: 0,
            interfaces: Vec::new(),
            view_methods: Vec::new(),
            change_methods: Vec::new(),
            buf,
        };
        proof {
            assert(r.interfaces.deep_view() =~= Seq::<Seq<char>>::empty());
            assert(r@ =~~= (TSView {
                name: Seq::empty(),
                impl_count: 0,
                interfaces: Seq::empty(),
                view_methods: Seq::empty(),
                change_methods: Seq::empty(),
                buf: r.buf@,
            }));
        }
        r
    }

    /// Writes a doc-comment block for the given doc lines at the given
    /// indentation.
    pub fn ts_doc(&mut self, docs: &Vec<String>, indent: &str)
        ensures
            final(self)@ == (TSView { buf: old(self)@.buf + spec_ts_doc(docs@, indent@), ..old(
                self,
            )@ }),
    {
        write_docs(&mut self.buf, docs, indent);
        proof {
            assert(self@ =~~= (TSView { buf: old(self)@.buf + spec_ts_doc(docs@, indent@), ..old(
                self,
            )@ }));
        }
    }

    /// Exports the generation banner, naming the generating tool, its
    /// version and its repository, and the common NEAR SDK types.
    pub fn ts_prelude(&mut self, now: String, bin_name: &str, version: &str, repository: &str)
        ensures
            final(self)@ == (TSView { buf: old(self)@.buf + spec_ts_prelude(
                bin_name@,
                version@,
                repository@,
                now@,
            ), ..old(self)@ }),
    {
        self.buf.append("// TypeScript bindings generated with ");
        self.buf.append(bin_name);
        self.buf.append(" v");
        self.buf.append(version);
        self.buf.append(" ");
        self.buf.append(repository);
        self.buf.append(now.as_str());
        self.buf.append("\n\n");
        self.buf.append("// Exports common NEAR Rust SDK types\n");
        self.buf.append("export type U64 = string;\n");
        self.buf.append("export type I64 = string;\n");
        self.buf.append("export type U128 = string;\n");
        self.buf.append("export type I128 = string;\n");
        self.buf.append("export type AccountId = string;\n");
        self.buf.append("export type ValidAccountId = string;\n");
        self.buf.append("\n");
        proof {
            assert(self.buf@ =~= old(self)@.buf + spec_ts_prelude(
                bin_name@,
                version@,
                repository@,
                now@,
            ));
            assert(self@ =~~= (TSView { buf: old(self)@.buf + spec_ts_prelude(
                bin_name@,
                version@,
                repository@,
                now@,
            ), ..old(self)@ }));
        }
    }

    /// Exports the main type implemented by the contract; the name and
    /// the interface list must both be set for anything to be emitted.
    pub fn ts_main_type(&mut self)
        ensures
            final(self)@ == (TSView { buf: old(self)@.buf + spec_ts_main_type(
                old(self)@.name,
                old(self)@.interfaces,
            ), ..old(self)@ }),
    {
        if !self.name.as_str().is_empty() && self.interfaces.len() > 0 {
            let joined = join_strings(&self.interfaces, " & ");
            self.buf.append("export type ");
            self.buf.append(self.name.as_str());
            self.buf.append(" = ");
            self.buf.append(joined.as_str());
            self.buf.append(";\n\n");
            proof {
                assert(self.buf@ =~= old(self)@.buf + spec_ts_main_type(
                    old(self)@.name,
                    old(self)@.interfaces,
                ));
                assert(self@ =~~= (TSView { buf: old(self)@.buf + spec_ts_main_type(
                    old(self)@.name,
                    old(self)@.interfaces,
                ), ..old(self)@ }));
            }
        } else {
            proof {
                assert(self.buf@ =~= old(self)@.buf + spec_ts_main_type(
                    old(self)@.name,
                    old(self)@.interfaces,
                ));
                assert(self@ =~~= (TSView { buf: old(self)@.buf + spec_ts_main_type(
                    old(self)@.name,
                    old(self)@.interfaces,
                ), ..old(self)@ }));
            }
        }
    }

    /// Exports the methods object that `near-api-js` uses to find the
    /// contract methods; both the view and the change list are always
    /// present.  Method names are emitted verbatim between quotes.
    pub fn ts_contract_methods(&mut self)
        ensures
            final(self)@ == (TSView { buf: old(self)@.buf + spec_ts_contract_methods(
                old(self)@.name,
                old(self)@.view_methods,
                old(self)@.change_methods,
            ), ..old(self)@ }),
    {
        self.buf.append("export const ");
        self.buf.append(self.name.as_str());
        self.buf.append("Methods = {\n");
        self.buf.append("    viewMethods: [\n");
        let ghost mid0 = self.buf@;
        let mut i: usize = 0;
        while i < self.view_methods.len()
            invariant
                i <= self.view_methods@.len(),
                self@.name == old(self)@.name,
                self@.impl_count == old(self)@.impl_count,
                self@.interfaces == old(self)@.interfaces,
                self@.view_methods == old(self)@.view_methods,
                self@.change_methods == old(self)@.change_methods,
                self.buf@ == mid0 + spec_method_list(self.view_methods@.take(i as int)),
            decreases self.view_methods@.len() - i,
        {
            self.buf.append("        \"");
            let n = &self.view_methods[i];
            self.buf.append(n.as_str());
            self.buf.append("\",\n");
            proof {
                assert(self.view_methods@.take(i as int + 1).drop_last() =~= self.view_methods@.take(
                    i as int,
                ));
                assert(self.view_methods@.take(i as int + 1).last() == self.view_methods@[i as int]);
                assert(self.buf@ =~= mid0 + spec_method_list(self.view_methods@.take(i as int + 1)));
            }
            i = i + 1;
        }
        proof {
            assert(self.view_methods@.take(self.view_methods@.len() as int) =~= self.view_methods@);
        }
        self.buf.append("    ],\n");
        self.buf.append("    changeMethods: [\n");
        let ghost mid1 = self.buf@;
        let mut i: usize = 0;
        while i < self.change_methods.len()
            invariant
                i <= self.change_methods@.len(),
                self@.name == old(self)@.name,
                self@.impl_count == old(self)@.impl_count,
                self@.interfaces == old(self)@.interfaces,
                self@.view_methods == old(self)@.view_methods,
                self@.change_methods == old(self)@.change_methods,
                self.buf@ == mid1 + spec_method_list(self.change_methods@.take(i as int)),
            decreases self.change_methods@.len() - i,
        {
            self.buf.append("        \"");
            let n = &self.change_methods[i];
            self.buf.append(n.as_str());
            self.buf.append("\",\n");
            proof {
                assert(self.change_methods@.take(i as int + 1).drop_last()
                    =~= self.change_methods@.take(i as int));
                assert(self.change_methods@.take(i as int + 1).last() == self.change_methods@[
                    i as int
                ]);
                assert(self.buf@ =~= mid1 + spec_method_list(
                    self.change_methods@.take(i as int + 1),
                ));
            }
            i = i + 1;
        }
        proof {
            assert(self.change_methods@.take(self.change_methods@.len() as int)
                =~= self.change_methods@);
        }
        self.buf.append("    ],\n");
        self.buf.append("};\n");
        proof {
            assert(self.buf@ =~= old(self)@.buf + spec_ts_contract_methods(
                old(self)@.name,
                old(self)@.view_methods,
                old(self)@.change_methods,
            ));
            assert(self@ =~~= (TSView { buf: old(self)@.buf + spec_ts_contract_methods(
                old(self)@.name,
                old(self)@.view_methods,
                old(self)@.change_methods,
            ), ..old(self)@ }));
        }
    }
}


/// Writes a doc-comment block for the given doc lines into `buf` at
/// the given indentation.
pub fn write_docs(buf: &mut String, docs: &Vec<String>, indent: &str)
    ensures
        final(buf)@ == old(buf)@ + spec_ts_doc(docs@, indent@),
{
    buf.append(indent);
    buf.append("/**\n");
    let mut i: usize = 0;
    while i < docs.len()
        invariant
            i <= docs@.len(),
            buf@ == old(buf)@ + indent@ + "/**\n"@ + spec_doc_lines(docs@.take(i as int), indent@),
        decreases docs@.len() - i,
    {
        let t = crate::trim(docs[i].as_str());
        buf.append(indent);
        buf.append(" * ");
        buf.append(t.as_str());
        buf.append("\n");
        proof {
            assert(docs@.take(i as int + 1).drop_last() =~= docs@.take(i as int));
            assert(docs@.take(i as int + 1).last() == docs@[i as int]);
            assert(buf@ =~= old(buf)@ + indent@ + "/**\n"@ + spec_doc_lines(
                docs@.take(i as int + 1),
                indent@,
            ));
        }
        i = i + 1;
    }
    buf.append(indent);
    buf.append(" */\n");
    proof {
        assert(docs@.take(docs@.len() as int) =~= docs@);
        assert(buf@ =~= old(buf)@ + spec_ts_doc(docs@, indent@));
    }
}

/// The exported form of a type alias: its doc block and a target alias.
pub open spec fn spec_ts_type_item(t: crate::near_syn::AliasDecl) -> Result<Seq<char>, ErrorView> {
    match spec_ts_type(t.ty) {
        Err(e) => Err(e),
        Ok((txt, _)) => Ok(
            spec_ts_doc(t.docs@, ""@) + "export type "@ + t.name@ + " = "@ + txt
                + ";\n\n"@,
        ),
    }
}

/// The exported form of an enum: omitted unless serializable, else its
/// doc block and one member per variant.
pub open spec fn spec_ts_enum(e: crate::near_syn::EnumDecl) -> Seq<char> {
    if !e.spec_is_serde() {
        Seq::empty()
    } else {
        spec_ts_doc(e.docs@, ""@) + "export enum "@ + e.name@ + " {\n"@
            + spec_variants_text(e.variants@) + "}\n\n"@
    }
}

/// The members of an exported enum, each with its doc block.
pub open spec fn spec_variants_text(vs: Seq<crate::near_syn::VariantDecl>) -> Seq<char>
    decreases vs.len(),
{
    if vs.len() == 0 {
        Seq::empty()
    } else {
        spec_variants_text(vs.drop_last()) + spec_ts_doc(vs.last().docs@, "    "@) + "    "@
            + vs.last().name@ + ",\n\n"@
    }
}

/// The named fields of an exported struct, each with its doc block.
pub open spec fn spec_fields_text(fs: Seq<crate::near_syn::FieldDecl>) -> Result<
    Seq<char>,
    ErrorView,
>
    decreases fs.len(),
{
    if fs.len() == 0 {
        Ok(Seq::empty())
    } else {
        match spec_fields_text(fs.drop_last()) {
            Err(e) => Err(e),
            Ok(pre) => match spec_ts_type(fs.last().ty) {
                Err(e) => Err(e),
                Ok((t, _)) => Ok(
                    pre + spec_ts_doc(fs.last().docs@, "    "@) + "    "@ + fs.last().name@ + ": "@
                        + t + ";\n\n"@,
                ),
            },
        }
    }
}

/// If every field before `i` projects and field `i` is rejected, the
/// whole field list is rejected with field `i`'s error.
proof fn lemma_fields_text_err(fs: Seq<crate::near_syn::FieldDecl>, i: int)
    requires
        0 <= i < fs.len(),
        spec_fields_text(fs.take(i)) is Ok,
        spec_ts_type(fs[i].ty) is Err,
    ensures
        spec_fields_text(fs) == Err::<Seq<char>, ErrorView>(spec_ts_type(fs[i].ty)->Err_0),
    decreases fs.len(),
{
    if i == fs.len() - 1 {
        assert(fs.drop_last() =~= fs.take(i));
        assert(fs.last() == fs[i]);
    } else {
        assert(fs.drop_last().take(i) =~= fs.take(i));
        assert(fs.drop_last()[i] == fs[i]);
        lemma_fields_text_err(fs.drop_last(), i);
    }
}

/// The exported form of a struct: omitted unless serializable; named
/// fields become an interface, unnamed fields a type synonym (a tuple
/// when there are several), and a unit struct has no target form.
pub open spec fn spec_ts_struct(s: crate::near_syn::StructDecl) -> Result<Seq<char>, ErrorView> {
    if !s.spec_is_serde() {
        Ok(Seq::empty())
    } else {
        match s.fields {
            crate::near_syn::FieldsKind::Named(fs) => match spec_fields_text(fs@) {
                Err(e) => Err(e),
                Ok(body) => Ok(
                    spec_ts_doc(s.docs@, ""@) + "export interface "@ + s.name@ + " {\n"@
                        + body + "}\n\n"@,
                ),
            },
            crate::near_syn::FieldsKind::Unnamed(ts) => match spec_ts_type_list(ts@) {
                Err(e) => Err(e),
                Ok(lst) => Ok(
                    spec_ts_doc(s.docs@, ""@) + "export type "@ + s.name@ + " = "@ + (
                    if ts@.len() == 1 {
                        lst
                    } else {
                        "["@ + lst + "]"@
                    }) + ";\n\n"@,
                ),
            },
            crate::near_syn::FieldsKind::Unit => Err(ErrorView::UnitStructUnsupported),
        }
    }
}


impl TS {
    /// Translates a type alias to a TypeScript type alias, with its doc
    /// block; a rejected type leaves the emitter untouched.
    pub fn ts_type(&mut self, item_type: &crate::near_syn::AliasDecl) -> (r: Result<
        (),
        NearError,
    >)
        ensures
            spec_ts_type_item(*item_type) matches Ok(txt) ==> r is Ok && final(self)@ == (TSView {
                buf: old(self)@.buf + txt,
                ..old(self)@
            }),
            spec_ts_type_item(*item_type) matches Err(e) ==> r matches Err(er) && er@ == e && final(self)@ == old(self)@,
    {
        let t = match ts_type(&item_type.ty) {
            Ok(t) => t,
            Err(e) => {
                return Err(e);
            },
        };
        self.ts_doc(&item_type.docs, "");
        self.buf.append("export type ");
        self.buf.append(item_type.name.as_str());
        self.buf.append(" = ");
        self.buf.append(t.as_str());
        self.buf.append(";\n\n");
        proof {
            assert(self.buf@ =~= old(self)@.buf + spec_ts_type_item(*item_type)->Ok_0);
            assert(self@ =~~= (TSView { buf: old(self)@.buf + spec_ts_type_item(*item_type)->Ok_0,
                ..old(self)@ }));
        }
        Ok(())
    }

    /// Translates a serializable enum to a TypeScript enum with one
    /// member per variant; any other enum is omitted.
    pub fn ts_enum(&mut self, item_enum: &crate::near_syn::EnumDecl)
        ensures
            final(self)@ == (TSView { buf: old(self)@.buf + spec_ts_enum(*item_enum), ..old(
                self,
            )@ }),
    {
        if !item_enum.is_serde() {
            proof {
                assert(self@ =~~= (TSView { buf: old(self)@.buf + spec_ts_enum(*item_enum), ..old(
                    self,
                )@ }));
            }
            return ;
        }
        self.ts_doc(&item_enum.docs, "");
        self.buf.append("export enum ");
        self.buf.append(item_enum.name.as_str());
        self.buf.append(" {\n");
        let ghost mid = self.buf@;
        let mut i: usize = 0;
        while i < item_enum.variants.len()
            invariant
                i <= item_enum.variants@.len(),
                self@.name == old(self)@.name,
                self@.impl_count == old(self)@.impl_count,
                self@.interfaces == old(self)@.interfaces,
                self@.view_methods == old(self)@.view_methods,
                self@.change_methods == old(self)@.change_methods,
                self.buf@ == mid + spec_variants_text(item_enum.variants@.take(i as int)),
            decreases item_enum.variants@.len() - i,
        {
            let v = &item_enum.variants[i];
            write_docs(&mut self.buf, &v.docs, "    ");
            self.buf.append("    ");
            self.buf.append(v.name.as_str());
            self.buf.append(",\n\n");
            proof {
                assert(item_enum.variants@.take(i as int + 1).drop_last()
                    =~= item_enum.variants@.take(i as int));
                assert(item_enum.variants@.take(i as int + 1).last() == item_enum.variants@[
                    i as int
                ]);
                assert(self.buf@ =~= mid + spec_variants_text(
                    item_enum.variants@.take(i as int + 1),
                ));
            }
            i = i + 1;
        }
        self.buf.append("}\n\n");
        proof {
            assert(item_enum.variants@.take(item_enum.variants@.len() as int)
                =~= item_enum.variants@);
            assert(self.buf@ =~= old(self)@.buf + spec_ts_enum(*item_enum));
            assert(self@ =~~= (TSView { buf: old(self)@.buf + spec_ts_enum(*item_enum), ..old(
                self,
            )@ }));
        }
    }

    /// Generates the TypeScript binding for a serializable struct:
    /// named fields become an interface, unnamed fields a type synonym,
    /// and a serializable unit struct is rejected.  Any other struct is
    /// omitted, and a rejection leaves the emitter untouched.
    #[verifier::rlimit(60)]
    pub fn ts_struct(&mut self, item_struct: &crate::near_syn::StructDecl) -> (r: Result<
        (),
        NearError,
    >)
        ensures
            spec_ts_struct(*item_struct) matches Ok(txt) ==> r is Ok && final(self)@ == (TSView {
                buf: old(self)@.buf + txt,
                ..old(self)@
            }),
            spec_ts_struct(*item_struct) matches Err(e) ==> r matches Err(er) && er@ == e && final(self)@ == old(self)@,
    {
        if !item_struct.is_serde() {
            proof {
                assert(self@ =~~= (TSView { buf: old(self)@.buf + spec_ts_struct(
                    *item_struct,
                )->Ok_0, ..old(self)@ }));
            }
            return Ok(());
        }
        match &item_struct.fields {
            crate::near_syn::FieldsKind::Named(fields) => {
                let mut tys: Vec<String> = Vec::new();
                let mut i: usize = 0;
                assert(spec_fields_text(fields@.take(0)) is Ok);
                while i < fields.len()
                    invariant
                        i <= fields@.len(),
                        tys@.len() == i,
                        item_struct.spec_is_serde(),
                        item_struct.fields == crate::near_syn::FieldsKind::Named(*fields),
                        spec_fields_text(fields@.take(i as int)) is Ok,
                        forall|k: int| #![trigger fields@[k]]
                            0 <= k < i ==> spec_ts_type(fields@[k].ty) is Ok && tys@[k]@
                                == spec_ts_type(fields@[k].ty)->Ok_0.0,
                        self == old(self),
                    decreases fields@.len() - i,
                {
                    let t = match ts_type(&fields[i].ty) {
                        Ok(t) => t,
                        Err(e) => {
                            proof {
                                lemma_fields_text_err(fields@, i as int);
                            }
                            return Err(e);
                        },
                    };
                    tys.push(t);
                    proof {
                        assert(fields@.take(i as int + 1).drop_last() =~= fields@.take(i as int));
                        assert(fields@.take(i as int + 1).last() == fields@[i as int]);
                        assert(spec_fields_text(fields@.take(i as int + 1)) is Ok);
                    }
                    i = i + 1;
                }
                proof {
                    assert(fields@.take(fields@.len() as int) =~= fields@);
                }
                self.ts_doc(&item_struct.docs, "");
                self.buf.append("export interface ");
                self.buf.append(item_struct.name.as_str());
                self.buf.append(" {\n");
                let ghost mid = self.buf@;
                let mut i: usize = 0;
                while i < fields.len()
                    invariant
                        i <= fields@.len(),
                        tys@.len() == fields@.len(),
                        item_struct.spec_is_serde(),
                        item_struct.fields == crate::near_syn::FieldsKind::Named(*fields),
                        forall|k: int| #![trigger fields@[k]]
                            0 <= k < fields@.len() ==> spec_ts_type(fields@[k].ty) is Ok && tys@[k]@
                                == spec_ts_type(fields@[k].ty)->Ok_0.0,
                        self@.name == old(self)@.name,
                        self@.impl_count == old(self)@.impl_count,
                        self@.interfaces == old(self)@.interfaces,
                        self@.view_methods == old(self)@.view_methods,
                        self@.change_methods == old(self)@.change_methods,
                        spec_fields_text(fields@.take(i as int)) is Ok,
                        self.buf@ == mid + spec_fields_text(fields@.take(i as int))->Ok_0,
                    decreases fields@.len() - i,
                {
                    let f = &fields[i];
                    write_docs(&mut self.buf, &f.docs, "    ");
                    self.buf.append("    ");
                    self.buf.append(f.name.as_str());
                    self.buf.append(": ");
                    self.buf.append(tys[i].as_str());
                    self.buf.append(";\n\n");
                    proof {
                        assert(fields@.take(i as int + 1).drop_last() =~= fields@.take(i as int));
                        assert(fields@.take(i as int + 1).last() == fields@[i as int]);
                        assert(self.buf@ =~= mid + spec_fields_text(
                            fields@.take(i as int + 1),
                        )->Ok_0);
                    }
                    i = i + 1;
                }
                self.buf.append("}\n\n");
                proof {
                    assert(fields@.take(fields@.len() as int) =~= fields@);
                    assert(self.buf@ =~= old(self)@.buf + spec_ts_struct(*item_struct)->Ok_0);
                    assert(self@ =~~= (TSView { buf: old(self)@.buf + spec_ts_struct(
                        *item_struct,
                    )->Ok_0, ..old(self)@ }));
                }
                Ok(())
            },
            crate::near_syn::FieldsKind::Unnamed(elems) => {
                let lst = match ts_type_list(elems) {
                    Ok(lst) => lst,
                    Err(e) => {
                        return Err(e);
                    },
                };
                self.ts_doc(&item_struct.docs, "");
                self.buf.append("export type ");
                self.buf.append(item_struct.name.as_str());
                self.buf.append(" = ");
                if elems.len() == 1 {
                    self.buf.append(lst.as_str());
                } else {
                    self.buf.append("[");
                    self.buf.append(lst.as_str());
                    self.buf.append("]");
                }
                self.buf.append(";\n\n");
                proof {
                    assert(self.buf@ =~= old(self)@.buf + spec_ts_struct(*item_struct)->Ok_0);
                    assert(self@ =~~= (TSView { buf: old(self)@.buf + spec_ts_struct(
                        *item_struct,
                    )->Ok_0, ..old(self)@ }));
                }
                Ok(())
            },
            crate::near_syn::FieldsKind::Unit => Err(NearError::UnitStructUnsupported),
        }
    }
}


/// The exported members of an implementation block: each exported
/// method's merged doc block and signature, in declaration order; the
/// first rejected method's error, if any, is the block's error.
pub open spec fn spec_impl_methods_text(ms: Seq<MethodDecl>, i: ImplDecl, c: ContractView) -> Result<
    Seq<char>,
    ErrorView,
>
    decreases ms.len(),
{
    if ms.len() == 0 {
        Ok(Seq::empty())
    } else {
        match spec_impl_methods_text(ms.drop_last(), i, c) {
            Err(e) => Err(e),
            Ok(pre) => if !ms.last().spec_is_exported(&i) {
                Ok(pre)
            } else {
                match spec_ts_sig(ms.last()) {
                    Err(e) => Err(e),
                    Ok(sig) => Ok(
                        pre + spec_ts_doc(
                            spec_merged_docs(c, ms.last().docs@, i.trait_name, ms.last().name@),
                            "    "@,
                        ) + "    "@ + sig + "\n\n"@,
                    ),
                }
            },
        }
    }
}

/// If every exported method before `j` has a signature and the exported
/// method `j` is rejected, the whole block is rejected with its error.
proof fn lemma_impl_methods_err(ms: Seq<MethodDecl>, i: ImplDecl, c: ContractView, j: int)
    requires
        0 <= j < ms.len(),
        spec_impl_methods_text(ms.take(j), i, c) is Ok,
        ms[j].spec_is_exported(&i),
        spec_ts_sig(ms[j]) is Err,
    ensures
        spec_impl_methods_text(ms, i, c) == Err::<Seq<char>, ErrorView>(spec_ts_sig(ms[j])->Err_0),
    decreases ms.len(),
{
    if j == ms.len() - 1 {
        assert(ms.drop_last() =~= ms.take(j));
        assert(ms.last() == ms[j]);
    } else {
        assert(ms.drop_last().take(j) =~= ms.take(j));
        assert(ms.drop_last()[j] == ms[j]);
        lemma_impl_methods_err(ms.drop_last(), i, c, j);
    }
}

/// The effect of emitting one implementation block.
///
/// A block without the bindgen marker or without exported methods emits
/// nothing.  A trait implementation is exported under the interface's
/// name; a bare implementation is exported as `Self<count>`, names the
/// contract, and its owning type must be a simple name.  The block's doc
/// lines are merged with the interface's, each exported method is
/// emitted with its merged doc block and signature, and the non-`init`
/// exported methods are recorded as view or change methods.
pub open spec fn spec_ts_impl(ts: TSView, c: ContractView, i: ImplDecl) -> Result<
    TSView,
    ErrorView,
> {
    if !(i.spec_is_bindgen() && i.spec_has_exported_methods()) {
        Ok(ts)
    } else {
        let docs_text = spec_ts_doc(spec_merged_impl_docs(c, i.docs@, i.trait_name), ""@);
        match i.trait_name {
            Some(tn) => match spec_impl_methods_text(i.items@, i, c) {
                Err(e) => Err(e),
                Ok(body) => Ok(
                    TSView {
                        interfaces: ts.interfaces.push(tn@),
                        view_methods: ts.view_methods + spec_kind_names(
                            i.items@,
                            i,
                            MethodKind::View,
                        ),
                        change_methods: ts.change_methods + spec_kind_names(
                            i.items@,
                            i,
                            MethodKind::Change,
                        ),
                        buf: ts.buf + docs_text + "export interface "@ + tn@ + " {\n"@ + body
                            + "}\n\n"@,
                        ..ts
                    },
                ),
            },
            None => match i.self_ty {
                TypeExpr::Path(n, _) => match spec_impl_methods_text(i.items@, i, c) {
                    Err(e) => Err(e),
                    Ok(body) => {
                        let iname = "Self"@ + spec_dec(ts.impl_count as nat);
                        Ok(
                            TSView {
                                name: n@,
                                impl_count: (ts.impl_count + 1) as u32,
                                interfaces: ts.interfaces.push(iname),
                                view_methods: ts.view_methods + spec_kind_names(
                                    i.items@,
                                    i,
                                    MethodKind::View,
                                ),
                                change_methods: ts.change_methods + spec_kind_names(
                                    i.items@,
                                    i,
                                    MethodKind::Change,
                                ),
                                buf: ts.buf + docs_text + "export interface "@ + iname + " {\n"@
                                    + body + "}\n\n"@,
                            },
                        )
                    },
                },
                _ => Err(ErrorView::MalformedSelfType),
            },
        }
    }
}

/// The effect of emitting one retained declaration.
pub open spec fn spec_ts_item_step(ts: TSView, c: ContractView, it: NearItem) -> Result<
    TSView,
    ErrorView,
> {
    match it {
        NearItem::Type(t) => match spec_ts_type_item(t) {
            Err(e) => Err(e),
            Ok(txt) => Ok(TSView { buf: ts.buf + txt, ..ts }),
        },
        NearItem::Struct(st) => match spec_ts_struct(st) {
            Err(e) => Err(e),
            Ok(txt) => Ok(TSView { buf: ts.buf + txt, ..ts }),
        },
        NearItem::Enum(e) => Ok(TSView { buf: ts.buf + spec_ts_enum(e), ..ts }),
        NearItem::Impl(i) => spec_ts_impl(ts, c, i),
    }
}

/// The effect of emitting the model's retained declarations, in order;
/// the first rejected declaration aborts the emission.
pub open spec fn spec_ts_items(ts: TSView, c: ContractView, items: Seq<NearItem>) -> Result<
    TSView,
    ErrorView,
>
    decreases items.len(),
{
    if items.len() == 0 {
        Ok(ts)
    } else {
        match spec_ts_item_step(ts, c, items.first()) {
            Err(e) => Err(e),
            Ok(ts1) => spec_ts_items(ts1, c, items.drop_first()),
        }
    }
}

/// Builds the members text of one implementation block and collects the
/// view and change method names it exports.
fn impl_body(item_impl: &ImplDecl, contract: &Contract) -> (r: Result<
    (String, Vec<String>, Vec<String>),
    NearError,
>)
    ensures
        r matches Ok(t) ==> spec_impl_methods_text(item_impl.items@, *item_impl, contract@)
            matches Ok(q) && t.0@ == q && t.1@ == spec_kind_names(
            item_impl.items@,
            *item_impl,
            MethodKind::View,
        ) && t.2@ == spec_kind_names(item_impl.items@, *item_impl, MethodKind::Change),
        r matches Err(e) ==> spec_impl_methods_text(item_impl.items@, *item_impl, contract@)
            matches Err(q) && e@ == q,
{
    let mut body = String::new();
    let mut view_names: Vec<String> = Vec::new();
    let mut change_names: Vec<String> = Vec::new();
    let ghost ms = item_impl.items@;
    let mut j: usize = 0;
    assert(ms.take(0) =~= Seq::<MethodDecl>::empty());
    while j < item_impl.items.len()
        invariant
            j <= ms.len(),
            ms == item_impl.items@,
            spec_impl_methods_text(ms.take(j as int), *item_impl, contract@) matches Ok(q) && body@
                == q,
            view_names@ == spec_kind_names(ms.take(j as int), *item_impl, MethodKind::View),
            change_names@ == spec_kind_names(ms.take(j as int), *item_impl, MethodKind::Change),
        decreases ms.len() - j,
    {
        proof {
            assert(ms.take(j as int + 1).drop_last() =~= ms.take(j as int));
            assert(ms.take(j as int + 1).last() == ms[j as int]);
        }
        let m = &item_impl.items[j];
        if m.is_exported(item_impl) {
            let sig = match ts_sig(m) {
                Ok(s) => s,
                Err(e) => {
                    proof {
                        lemma_impl_methods_err(ms, *item_impl, contract@, j as int);
                    }
                    return Err(e);
                },
            };
            if !m.is_init() {
                if m.is_mut() {
                    change_names.push(m.name.clone());
                } else {
                    view_names.push(m.name.clone());
                }
            }
            let docs = contract.merged_docs(&m.docs, &item_impl.trait_name, &m.name);
            write_docs(&mut body, &docs, "    ");
            body.append("    ");
            body.append(sig.as_str());
            body.append("\n\n");
            proof {
                assert(body@ =~= spec_impl_methods_text(
                    ms.take(j as int + 1),
                    *item_impl,
                    contract@,
                )->Ok_0);
                assert(view_names@ =~= spec_kind_names(
                    ms.take(j as int + 1),
                    *item_impl,
                    MethodKind::View,
                ));
                assert(change_names@ =~= spec_kind_names(
                    ms.take(j as int + 1),
                    *item_impl,
                    MethodKind::Change,
                ));
            }
        } else {
            proof {
                assert(body@ =~= spec_impl_methods_text(
                    ms.take(j as int + 1),
                    *item_impl,
                    contract@,
                )->Ok_0);
                assert(view_names@ =~= spec_kind_names(
                    ms.take(j as int + 1),
                    *item_impl,
                    MethodKind::View,
                ));
                assert(change_names@ =~= spec_kind_names(
                    ms.take(j as int + 1),
                    *item_impl,
                    MethodKind::Change,
                ));
            }
        }
        j = j + 1;
    }
    proof {
        assert(ms.take(ms.len() as int) =~= ms);
    }
    Ok((body, view_names, change_names))
}

impl TS {
    /// Translates an implementation block to a TypeScript interface,
    /// merging its documentation and its methods' with the implemented
    /// interface's; a bare block is exported as `Self<count>` and names
    /// the contract.  A rejection leaves the emitter untouched.
    #[verifier::rlimit(60)]
    pub fn ts_impl(&mut self, item_impl: &ImplDecl, contract: &Contract) -> (r: Result<
        (),
        NearError,
    >)
        requires
            old(self).impl_count < u32::MAX,
        ensures
            spec_ts_impl(old(self)@, contract@, *item_impl) matches Ok(v) ==> r is Ok && final(self)@ == v,
            spec_ts_impl(old(self)@, contract@, *item_impl) matches Err(e) ==> r matches Err(er)
                && er@ == e && final(self)@ == old(self)@,
    {
        if !(item_impl.is_bindgen() && item_impl.has_exported_methods()) {
            return Ok(());
        }
        let (iface, bare) = match &item_impl.trait_name {
            Some(tn) => (tn.clone(), None),
            None => match &item_impl.self_ty {
                TypeExpr::Path(n, _) => {
                    let mut s = "Self".to_owned();
                    let d = u32_dec(self.impl_count);
                    s.append(d.as_str());
                    proof {
                        assert(s@ =~= "Self"@ + spec_dec(self.impl_count as nat));
                    }
                    (s, Some(n.clone()))
                },
                _ => {
                    return Err(NearError::MalformedSelfType);
                },
            },
        };
        let (body, mut view_names, mut change_names) = match impl_body(item_impl, contract) {
            Ok(t) => t,
            Err(e) => {
                return Err(e);
            },
        };
        let impl_docs = contract.merged_impl_docs(&item_impl.docs, &item_impl.trait_name);
        write_docs(&mut self.buf, &impl_docs, "");
        self.buf.append("export interface ");
        self.buf.append(iface.as_str());
        self.buf.append(" {\n");
        self.buf.append(body.as_str());
        self.buf.append("}\n\n");
        let ghost dv = self.interfaces.deep_view();
        let ghost ifacev = iface@;
        self.interfaces.push(iface);
        proof {
            assert(self.interfaces.deep_view() =~~= dv.push(ifacev));
        }
        self.view_methods.append(&mut view_names);
        self.change_methods.append(&mut change_names);
        match bare {
            Some(n) => {
                self.name = n;
                self.impl_count = self.impl_count + 1;
            },
            None => {},
        }
        proof {
            assert(self@ =~~= spec_ts_impl(old(self)@, contract@, *item_impl)->Ok_0);
        }
        Ok(())
    }

    /// Translates the model's retained declarations to TypeScript, in
    /// order: type aliases, serializable structs and enums, and
    /// implementation blocks.
    pub fn ts_items(&mut self, contract: &Contract) -> (r: Result<(), NearError>)
        requires
            old(self).impl_count as int + contract.items@.len() <= u32::MAX as int,
        ensures
            spec_ts_items(old(self)@, contract@, contract@.items) matches Ok(v) ==> r is Ok
                && final(self)@ == v,
            spec_ts_items(old(self)@, contract@, contract@.items) matches Err(e) ==> r matches Err(
                er,
            ) && er@ == e,
    {
        let ghost items = contract@.items;
        let mut k: usize = 0;
        assert(items.skip(0) =~= items);
        while k < contract.items.len()
            invariant
                k <= items.len(),
                items == contract@.items,
                self.impl_count as int <= old(self).impl_count + k,
                old(self).impl_count as int + items.len() <= u32::MAX as int,
                spec_ts_items(old(self)@, contract@, items) == spec_ts_items(
                    self@,
                    contract@,
                    items.skip(k as int),
                ),
            decreases items.len() - k,
        {
            proof {
                assert(items.skip(k as int).first() == items[k as int]);
                assert(items.skip(k as int).drop_first() =~= items.skip(k as int + 1));
            }
            let ghost pre = self@;
            let step = match &contract.items[k] {
                NearItem::Type(t) => self.ts_type(t),
                NearItem::Struct(st) => self.ts_struct(st),
                NearItem::Enum(e) => {
                    self.ts_enum(e);
                    Ok(())
                },
                NearItem::Impl(i) => self.ts_impl(i, contract),
            };
            proof {
                assert(spec_ts_item_step(pre, contract@, items[k as int]) is Ok ==> self@
                    == spec_ts_item_step(pre, contract@, items[k as int])->Ok_0);
            }
            match step {
                Ok(_) => {},
                Err(e) => {
                    return Err(e);
                },
            }
            k = k + 1;
        }
        proof {
            assert(items.skip(items.len() as int) =~= Seq::<NearItem>::empty());
        }
        Ok(())
    }
}

} // verus!
