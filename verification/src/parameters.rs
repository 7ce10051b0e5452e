//! The parameter lists of the functions that are emitted.

use crate::ast::{FunctionSignature, ModuleIdent, SingleType, Var};
use crate::payload::{is_type_signer, single_is_signer};
use crate::shared::{
    lemma_follows_none, lemma_follows_then, wrote, Context, DiagnosticView, Effects, WriteResult,
};
use crate::text::{rename, renamed};
use crate::tsgen_writer::{TsgenWriter, WriterView};
use crate::value_types::{base_of, base_refs, base_ts, single_type_to_tstype, type_ready};
use vstd::prelude::*;

verus! {

/// Whether the parameter at position `i` is left out of a list.
pub open spec fn param_skipped(
    params: Seq<(Var, SingleType)>,
    i: int,
    skip_signer: bool,
    skip_first: bool,
) -> bool {
    (skip_signer && single_is_signer(params[i].1)) || (skip_first && i == 0)
}

/// Whether each parameter's type can be named.
pub open spec fn params_ready(params: Seq<(Var, SingleType)>) -> bool {
    forall|i: int| 0 <= i < params.len() ==> type_ready(base_of((#[trigger] params[i]).1))
}

/// What the parameters from position `i` on write: one line each, with the
/// name, a colon, the type and a comma; or the first error among their types.
pub open spec fn params_run(
    w: WriterView,
    params: Seq<(Var, SingleType)>,
    i: int,
    cur: ModuleIdent,
    skip_signer: bool,
    skip_first: bool,
) -> Result<WriterView, DiagnosticView>
    decreases params.len() - i,
{
    if i < 0 || i >= params.len() {
        Ok(w)
    } else if param_skipped(params, i, skip_signer, skip_first) {
        params_run(w, params, i + 1, cur, skip_signer, skip_first)
    } else {
        match base_ts(base_of(params[i].1), cur) {
            Ok(t) => params_run(
                w.writeln(renamed(params[i].0.value@) + ": "@ + t + ","@),
                params,
                i + 1,
                cur,
                skip_signer,
                skip_first,
            ),
            Err(d) => Err(d),
        }
    }
}

/// What a parameter list writes: its lines, one step further in.
pub open spec fn parameters_run(
    w: WriterView,
    sig: FunctionSignature,
    cur: ModuleIdent,
    skip_signer: bool,
    skip_first: bool,
) -> Result<WriterView, DiagnosticView> {
    match params_run(w.increase_indent(), sig.parameters@, 0, cur, skip_signer, skip_first) {
        Ok(w1) => Ok(w1.decrease_indent()),
        Err(d) => Err(d),
    }
}

/// The imports that the types of the first `n` parameters need, those left
/// out apart.
pub open spec fn params_refs(
    params: Seq<(Var, SingleType)>,
    n: int,
    cur: ModuleIdent,
    skip_signer: bool,
    skip_first: bool,
) -> Effects
    decreases n,
{
    if n <= 0 || n > params.len() {
        Effects::none()
    } else if param_skipped(params, n - 1, skip_signer, skip_first) {
        params_refs(params, n - 1, cur, skip_signer, skip_first)
    } else {
        params_refs(params, n - 1, cur, skip_signer, skip_first).plus(
            base_refs(base_of(params[n - 1].1), cur),
        )
    }
}

/// The imports that a parameter list needs.
pub open spec fn parameters_refs(
    sig: FunctionSignature,
    cur: ModuleIdent,
    skip_signer: bool,
    skip_first: bool,
) -> Effects {
    params_refs(sig.parameters@, sig.parameters@.len() as int, cur, skip_signer, skip_first)
}

/// Writes the parameters of a signature, one on a line; signers, and the
/// first parameter, are left out on demand.
pub fn write_parameters(
    sig: &FunctionSignature,
    w: &mut TsgenWriter,
    c: &mut Context,
    skip_signer: bool,
    skip_first: bool,
) -> (r: WriteResult)
    requires
        old(c).current_module is Some,
        params_ready(sig.parameters@),
    ensures
        wrote(
            r,
            final(w)@,
            parameters_run(old(w)@, *sig, old(c).current_module->0, skip_signer, skip_first),
        ),
        r is Ok ==> final(c).follows(
            *old(c),
            parameters_refs(*sig, old(c).current_module->0, skip_signer, skip_first),
        ),
        final(c).grown(*old(c)),
        final(c).reached(*old(c), Effects::none()),
{
    let ghost cur = c.current_module->0;
    w.increase_indent();
    let mut idx: usize = 0;
    proof {
        lemma_follows_none(*c);
    }
    while idx < sig.parameters.len()
        invariant
            idx <= sig.parameters.len(),
            c.current_module == Some(cur),
            old(c).current_module == Some(cur),
            params_ready(sig.parameters@),
            params_run(w@, sig.parameters@, idx as int, cur, skip_signer, skip_first)
                == params_run(
                old(w)@.increase_indent(),
                sig.parameters@,
                0,
                cur,
                skip_signer,
                skip_first,
            ),
            c.follows(
                *old(c),
                params_refs(sig.parameters@, idx as int, cur, skip_signer, skip_first),
            ),
            c.reached(*old(c), Effects::none()),
        decreases sig.parameters.len() - idx,
    {
        let name = &sig.parameters[idx].0;
        let ty = &sig.parameters[idx].1;
        if skip_signer && is_type_signer(ty) {
            idx = idx + 1;
            continue ;
        }
        if skip_first && idx == 0 {
            idx = idx + 1;
            continue ;
        }
        let ghost c1 = *c;
        let mut line = rename(name.value.as_str());
        line.append(": ");
        match single_type_to_tstype(ty, c) {
            Ok(t) => {
                line.append(t.as_str());
            },
            Err(d) => {
                return Err(d);
            },
        }
        line.append(",");
        w.writeln(line.as_str());
        proof {
            lemma_follows_then(
                *old(c),
                c1,
                *c,
                params_refs(sig.parameters@, idx as int, cur, skip_signer, skip_first),
                base_refs(base_of(sig.parameters@[idx as int].1), cur),
            );
        }
        idx = idx + 1;
    }
    w.decrease_indent();
    Ok(())
}

} // verus!
