//! Functions to render Markdown documentation for a contract's
//! exported methods.

use vstd::prelude::*;
use vstd::string::StringExecFns;

use crate::near_syn::{
    ErrorView, ImplDecl, Item, MethodDecl, NearError, NearImpl, NearMethod, SourceFile, TypeExpr,
};
use crate::ts::{spec_ts_sig, ts_sig};

verus! {

/// Doc lines rendered as plain text: each line trimmed, one per line.
pub open spec fn spec_extract_docs(docs: Seq<String>) -> Seq<char>
    decreases docs.len(),
{
    if docs.len() == 0 {
        Seq::empty()
    } else {
        spec_extract_docs(docs.drop_last()) + crate::spec_trim(docs.last()@) + "\n"@
    }
}

/// Renders doc lines as plain text, one trimmed line each.
pub fn extract_docs(docs: &Vec<String>) -> (r: String)
    ensures
        r@ == spec_extract_docs(docs@),
{
    let mut r = String::new();
    let mut i: usize = 0;
    while i < docs.len()
        invariant
            i <= docs@.len(),
            r@ == spec_extract_docs(docs@.take(i as int)),
        decreases docs@.len() - i,
    {
        let t = crate::trim(docs[i].as_str());
        r.append(t.as_str());
        r.append("\n");
        proof {
            assert(docs@.take(i as int + 1).drop_last() =~= docs@.take(i as int));
            assert(docs@.take(i as int + 1).last() == docs@[i as int]);
            assert(r@ =~= spec_extract_docs(docs@.take(i as int + 1)));
        }
        i = i + 1;
    }
    proof {
        assert(docs@.take(docs@.len() as int) =~= docs@);
    }
    r
}

/// One method's section: its category emblem, its name, a constructor
/// tag for `init` methods, its exported signature, and its doc lines.
pub open spec fn spec_md_method(m: MethodDecl) -> Result<Seq<char>, ErrorView> {
    match spec_ts_sig(m) {
        Err(e) => Err(e),
        Ok(sig) => {
            let emblem = if m.spec_is_init() {
                ":bricks:"@
            } else if m.spec_is_mut() {
                ":writing_hand:"@
            } else {
                ":eyeglasses:"@
            };
            let init_decl = if m.spec_is_init() {
                " (*constructor*)"@
            } else {
                Seq::empty()
            };
            Ok(
                "\n### "@ + emblem + " `"@ + m.name@ + "`"@ + init_decl + "\n\n"@
                    + "```typescript\n"@ + sig + "\n```\n\n"@ + spec_extract_docs(m.docs@),
            )
        },
    }
}

/// The sections of an implementation's exported methods, in order; the
/// first rejected method's error, if any, is the block's error.
pub open spec fn spec_md_methods(ms: Seq<MethodDecl>, i: ImplDecl) -> Result<Seq<char>, ErrorView>
    decreases ms.len(),
{
    if ms.len() == 0 {
        Ok(Seq::empty())
    } else {
        match spec_md_methods(ms.drop_last(), i) {
            Err(e) => Err(e),
            Ok(pre) => if !ms.last().spec_is_exported(&i) {
                Ok(pre)
            } else {
                match spec_md_method(ms.last()) {
                    Err(e) => Err(e),
                    Ok(one) => Ok(pre + one),
                }
            },
        }
    }
}

proof fn lemma_md_methods_err(ms: Seq<MethodDecl>, i: ImplDecl, j: int)
    requires
        0 <= j < ms.len(),
        spec_md_methods(ms.take(j), i) is Ok,
        ms[j].spec_is_exported(&i),
        spec_md_method(ms[j]) is Err,
    ensures
        spec_md_methods(ms, i) == Err::<Seq<char>, ErrorView>(spec_md_method(ms[j])->Err_0),
    decreases ms.len(),
{
    if j == ms.len() - 1 {
        assert(ms.drop_last() =~= ms.take(j));
        assert(ms.last() == ms[j]);
    } else {
        assert(ms.drop_last().take(j) =~= ms.take(j));
        assert(ms.drop_last()[j] == ms[j]);
        lemma_md_methods_err(ms.drop_last(), i, j);
    }
}

/// Renders the sections of an implementation's exported methods.
pub fn methods(input: &ImplDecl) -> (r: Result<String, NearError>)
    ensures
        match r {
            Ok(s) => spec_md_methods(input.items@, *input) matches Ok(q) && s@ == q,
            Err(e) => spec_md_methods(input.items@, *input) matches Err(q) && e@ == q,
        },
{
    let mut s = String::new();
    let ghost ms = input.items@;
    let mut j: usize = 0;
    assert(ms.take(0) =~= Seq::<MethodDecl>::empty());
    while j < input.items.len()
        invariant
            j <= ms.len(),
            ms == input.items@,
            spec_md_methods(ms.take(j as int), *input) matches Ok(q) && s@ == q,
        decreases ms.len() - j,
    {
        proof {
            assert(ms.take(j as int + 1).drop_last() =~= ms.take(j as int));
            assert(ms.take(j as int + 1).last() == ms[j as int]);
        }
        let m = &input.items[j];
        if m.is_exported(input) {
            let sig = match ts_sig(m) {
                Ok(sig) => sig,
                Err(e) => {
                    proof {
                        lemma_md_methods_err(ms, *input, j as int);
                    }
                    return Err(e);
                },
            };
            s.append("\n### ");
            if m.is_init() {
                s.append(":bricks:");
            } else if m.is_mut() {
                s.append(":writing_hand:");
            } else {
                s.append(":eyeglasses:");
            }
            s.append(" `");
            s.append(m.name.as_str());
            s.append("`");
            if m.is_init() {
                s.append(" (*constructor*)");
            }
            s.append("\n\n");
            s.append("```typescript\n");
            s.append(sig.as_str());
            s.append("\n```\n\n");
            let docs = extract_docs(&m.docs);
            s.append(docs.as_str());
            proof {
                assert(s@ =~= spec_md_methods(ms.take(j as int + 1), *input)->Ok_0);
            }
        } else {
            proof {
                assert(s@ =~= spec_md_methods(ms.take(j as int + 1), *input)->Ok_0);
            }
        }
        j = j + 1;
    }
    proof {
        assert(ms.take(ms.len() as int) =~= ms);
    }
    Ok(s)
}

/// One implementation's documentation: a section header naming the
/// implemented interface or the owning type, then its exported methods.
/// A block without the bindgen marker contributes nothing.
pub open spec fn spec_md_impl(i: ImplDecl) -> Result<Seq<char>, ErrorView> {
    if !i.spec_is_bindgen() {
        Ok(Seq::empty())
    } else {
        match spec_md_methods(i.items@, i) {
            Err(e) => Err(e),
            Ok(body) => Ok(
                (match i.trait_name {
                    Some(tn) => "\n## Methods for `"@ + tn@ + "` interface\n"@,
                    None => match i.self_ty {
                        TypeExpr::Path(n, _) => "\n## Methods for "@ + n@ + "\n"@,
                        _ => "\n## Methods for Contract\n"@,
                    },
                }) + body,
            ),
        }
    }
}

/// The documentation that a unit's declarations contribute: one section
/// per bindgen implementation, in order.
pub open spec fn spec_md_items(items: Seq<Item>) -> Result<Seq<char>, ErrorView>
    decreases items.len(),
{
    if items.len() == 0 {
        Ok(Seq::empty())
    } else {
        match spec_md_items(items.drop_last()) {
            Err(e) => Err(e),
            Ok(pre) => match items.last() {
                Item::Impl(i) => match spec_md_impl(i) {
                    Err(e) => Err(e),
                    Ok(one) => Ok(pre + one),
                },
                _ => Ok(pre),
            },
        }
    }
}

proof fn lemma_md_items_err(items: Seq<Item>, k: int)
    requires
        0 <= k < items.len(),
        spec_md_items(items.take(k)) is Ok,
        items[k] matches Item::Impl(i) && spec_md_impl(i) is Err,
    ensures
        spec_md_items(items) == Err::<Seq<char>, ErrorView>(
            spec_md_impl(items[k]->Impl_0)->Err_0,
        ),
    decreases items.len(),
{
    if k == items.len() - 1 {
        assert(items.drop_last() =~= items.take(k));
        assert(items.last() == items[k]);
    } else {
        assert(items.drop_last().take(k) =~= items.take(k));
        assert(items.drop_last()[k] == items[k]);
        lemma_md_items_err(items.drop_last(), k);
    }
}

/// The Markdown documentation of one source unit: its own doc lines,
/// then one section per bindgen implementation.
pub open spec fn spec_md(f: SourceFile) -> Result<Seq<char>, ErrorView> {
    match spec_md_items(f.items@) {
        Err(e) => Err(e),
        Ok(body) => Ok(spec_extract_docs(f.attrs@) + body),
    }
}

/// Renders the Markdown documentation of one source unit.
pub fn md(syntax: &SourceFile) -> (r: Result<String, NearError>)
    ensures
        match r {
            Ok(s) => spec_md(*syntax) matches Ok(q) && s@ == q,
            Err(e) => spec_md(*syntax) matches Err(q) && e@ == q,
        },
{
    let mut s = extract_docs(&syntax.attrs);
    let ghost items = syntax.items@;
    let ghost docs_text = s@;
    let mut k: usize = 0;
    assert(items.take(0) =~= Seq::<Item>::empty());
    while k < syntax.items.len()
        invariant
            k <= items.len(),
            items == syntax.items@,
            spec_md_items(items.take(k as int)) matches Ok(q) && s@ == docs_text + q,
            docs_text == spec_extract_docs(syntax.attrs@),
        decreases items.len() - k,
    {
        proof {
            assert(items.take(k as int + 1).drop_last() =~= items.take(k as int));
            assert(items.take(k as int + 1).last() == items[k as int]);
        }
        match &syntax.items[k] {
            Item::Impl(impl_item) => {
                if impl_item.is_bindgen() {
                    let body = match methods(impl_item) {
                        Ok(b) => b,
                        Err(e) => {
                            proof {
                                lemma_md_items_err(items, k as int);
                            }
                            return Err(e);
                        },
                    };
                    match &impl_item.trait_name {
                        Some(tn) => {
                            s.append("\n## Methods for `");
                            s.append(tn.as_str());
                            s.append("` interface\n");
                        },
                        None => {
                            match &impl_item.self_ty {
                                TypeExpr::Path(n, _) => {
                                    s.append("\n## Methods for ");
                                    s.append(n.as_str());
                                    s.append("\n");
                                },
                                _ => {
                                    s.append("\n## Methods for Contract\n");
                                },
                            }
                        },
                    }
                    s.append(body.as_str());
                    proof {
                        assert(s@ =~= docs_text + spec_md_items(items.take(k as int + 1))->Ok_0);
                    }
                } else {
                    proof {
                        assert(s@ =~= docs_text + spec_md_items(items.take(k as int + 1))->Ok_0);
                    }
                }
            },
            _ => {
                proof {
                    assert(s@ =~= docs_text + spec_md_items(items.take(k as int + 1))->Ok_0);
                }
            },
        }
        k = k + 1;
    }
    proof {
        assert(items.take(items.len() as int) =~= items);
        assert(s@ =~= spec_md(*syntax)->Ok_0);
    }
    Ok(s)
}

} // verus!
