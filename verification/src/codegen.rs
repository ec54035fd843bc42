//! Body synthesis and re-emission: sequencing the callback expressions
//! around the original body and printing the rewritten declaration.

use vstd::prelude::*;
use vstd::string::StringExecFns;

use crate::callback::{Callback, CallbackType, CallbackView};
use crate::decl::AttrView;
use crate::fn_with_callbacks::FnWithCallbacks;

verus! {

/// Whether a timing is sequenced before the original body. `Around` is
/// deliberately sequenced exactly like `Before`; no separate wrapping
/// semantics exist for it.
pub open spec fn is_before_timing(t: CallbackType) -> bool {
    t is Before || t is Around
}

fn timing_is_before(t: &CallbackType) -> (r: bool)
    ensures
        r == is_before_timing(*t),
{
    match t {
        CallbackType::Before => true,
        CallbackType::Around => true,
        CallbackType::After => false,
    }
}

/// The expressions of the descriptors on one side of the original body,
/// flattened in list order: the side that runs before the body
/// (`before == true`) or the side that runs after it.
pub open spec fn exprs_with(cbs: Seq<CallbackView>, before: bool) -> Seq<Seq<char>>
    decreases cbs.len(),
{
    if cbs.len() == 0 {
        Seq::empty()
    } else {
        let rest = exprs_with(cbs.drop_last(), before);
        if is_before_timing(cbs.last().callback_type) == before {
            rest + cbs.last().fns
        } else {
            rest
        }
    }
}

/// The statement text of a sequence of expressions: each expression
/// re-emitted as a standalone statement whose value is discarded.
pub open spec fn stmts_text(es: Seq<Seq<char>>) -> Seq<char>
    decreases es.len(),
{
    if es.len() == 0 {
        Seq::empty()
    } else {
        stmts_text(es.drop_last()) + es.last() + " ; "@
    }
}

/// The synthesized body: the before-side expressions as statements, the
/// original body's value captured under the fixed internal binding
/// `ret` (introduced only inside the synthesized scope), the after-side
/// expressions as statements — free to read `ret` — and the captured
/// binding as the block's final value.
pub open spec fn block_text(cbs: Seq<CallbackView>, body: Seq<char>) -> Seq<char> {
    "{ "@ + stmts_text(exprs_with(cbs, true)) + "#[allow(unused_mut)] let mut ret = "@ + body
        + " ; "@ + stmts_text(exprs_with(cbs, false)) + "ret }"@
}

/// The verbatim text of the kept attributes, in their original order.
pub open spec fn attrs_text(attrs: Seq<AttrView>) -> Seq<char>
    decreases attrs.len(),
{
    if attrs.len() == 0 {
        Seq::empty()
    } else {
        attrs_text(attrs.drop_last()) + attrs.last().text + " "@
    }
}

/// The re-emitted declaration: the kept attributes, the untouched
/// signature, and the given body block.
pub open spec fn fn_text(attrs: Seq<AttrView>, sig: Seq<char>, block: Seq<char>) -> Seq<char> {
    attrs_text(attrs) + sig + " "@ + block
}

proof fn lemma_stmts_text_push(es: Seq<Seq<char>>, e: Seq<char>)
    ensures
        stmts_text(es.push(e)) == stmts_text(es) + e + " ; "@,
{
    assert(es.push(e).drop_last() =~= es);
}

/// Appends each expression of the chosen side as a standalone statement.
fn append_stmts(out: &mut String, cbs: &Vec<Callback>, before: bool)
    ensures
        final(out)@ == old(out)@ + stmts_text(exprs_with(cbs.deep_view(), before)),
{
    let ghost base = out@;
    proof {
        assert(cbs.deep_view().take(0) =~= Seq::<CallbackView>::empty());
        assert(base + stmts_text(exprs_with(cbs.deep_view().take(0), before)) =~= base);
    }
    let n = cbs.len();
    for i in 0..n
        invariant
            n == cbs.len(),
            out@ == base + stmts_text(exprs_with(cbs.deep_view().take(i as int), before)),
    {
        let ghost prefix = cbs.deep_view().take(i as int);
        let c = &cbs[i];
        if timing_is_before(&c.callback_type) == before {
            let ghost fns = c@.fns;
            let m = c.fns.len();
            for j in 0..m
                invariant
                    m == c.fns.len(),
                    fns == c@.fns,
                    out@ == base + stmts_text(exprs_with(prefix, before) + fns.take(j as int)),
            {
                proof {
                    assert(exprs_with(prefix, before) + fns.take(0) =~= exprs_with(
                        prefix,
                        before,
                    ));
                }
                let ghost mid = exprs_with(prefix, before) + fns.take(j as int);
                out.append(c.fns[j].as_str());
                out.append(" ; ");
                proof {
                    lemma_stmts_text_push(mid, fns[j as int]);
                    assert(mid.push(fns[j as int]) =~= exprs_with(prefix, before) + fns.take(
                        j + 1,
                    ));
                    assert(out@ =~= base + stmts_text(mid.push(fns[j as int])));
                }
            }
            proof {
                assert(fns.take(m as int) =~= fns);
            }
        } else {
            proof {
                assert(exprs_with(prefix, before) + c@.fns.take(0) =~= exprs_with(prefix, before));
            }
        }
        proof {
            let next = cbs.deep_view().take(i + 1);
            assert(next.drop_last() =~= prefix);
            assert(next.last() == cbs.deep_view()[i as int]);
            assert(out@ =~= base + stmts_text(exprs_with(next, before)));
        }
    }
    proof {
        assert(cbs.deep_view().take(n as int) =~= cbs.deep_view());
    }
}

/// Synthesis and re-emission in one pass: the kept attributes verbatim,
/// the untouched signature, and the synthesized body that runs the
/// before-side expressions, captures the original body's value under
/// `ret`, runs the after-side expressions, and yields `ret`.
pub fn generate(func: FnWithCallbacks) -> (r: String)
    ensures
        r@ == fn_text(
            func.function@.attrs,
            func.function@.sig,
            block_text(func.callbacks.deep_view(), func.function@.body),
        ),
{
    let FnWithCallbacks { function, callbacks } = func;
    let ghost attrs_dv = function.attrs.deep_view();

    let mut out = String::new();

    proof {
        assert(attrs_dv.take(0) =~= Seq::<AttrView>::empty());
        assert(out@ =~= attrs_text(attrs_dv.take(0)));
    }
    let n = function.attrs.len();
    for i in 0..n
        invariant
            n == function.attrs.len(),
            attrs_dv == function.attrs.deep_view(),
            out@ == attrs_text(attrs_dv.take(i as int)),
    {
        let ghost prefix = attrs_dv.take(i as int);
        let a = &function.attrs[i];
        out.append(a.text.as_str());
        out.append(" ");
        proof {
            let next = attrs_dv.take(i + 1);
            assert(next.drop_last() =~= prefix);
            assert(next.last() == attrs_dv[i as int]);
            assert(out@ =~= attrs_text(next));
        }
    }
    proof {
        assert(attrs_dv.take(n as int) =~= attrs_dv);
    }

    out.append(function.sig.as_str());
    out.append(" ");
    out.append("{ ");
    append_stmts(&mut out, &callbacks, true);
    out.append("#[allow(unused_mut)] let mut ret = ");
    out.append(function.body.as_str());
    out.append(" ; ");
    append_stmts(&mut out, &callbacks, false);
    out.append("ret }");

    proof {
        assert(out@ =~= fn_text(
            attrs_dv,
            function.sig@,
            block_text(callbacks.deep_view(), function.body@),
        ));
    }
    out
}

} // verus!
