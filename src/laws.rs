//! Properties of the bridge that span several calls, proved from the
//! contracts of Send and Receive.
use crate::bridge::{
    receive_check,
    receive_outcome,
    replay_nonce,
    send_outcome,
    ReceiveContext,
    ReceivePlan,
    SendContext,
    SendPlan,
};
use crate::codec::{decoded_send_payload, flag_data_fits, ReceivePayload};
use crate::custody::{custody_effect, Balances};
use crate::signature::signed_message;
use crate::state::{CustomError, GlobalState, NonceAccount, TokenConfig};
use vstd::prelude::*;

verus! {

/// Replaying an accepted Receive, identically, against the recipient's
/// advanced nonce record fails with `InvalidNonce` and leaves the record as
/// the first call left it.
pub proof fn lemma_replayed_receive_rejected(
    state: GlobalState,
    config: TokenConfig,
    pre: NonceAccount,
    mid: NonceAccount,
    post: NonceAccount,
    ctx: ReceiveContext,
    p: ReceivePayload,
    digest: Seq<u8>,
    keys_digest: Seq<u8>,
    first: Result<ReceivePlan, CustomError>,
    second: Result<ReceivePlan, CustomError>,
)
    requires
        receive_outcome(state, config, pre, mid, ctx, p, digest, keys_digest, first),
        first is Ok,
        receive_outcome(state, config, mid, post, ctx, p, digest, keys_digest, second),
    ensures
        second == Err::<ReceivePlan, CustomError>(CustomError::InvalidNonce),
        post == mid,
{
}

/// Once a Receive presenting a nonce has been accepted, any later Receive
/// presenting the same nonce against the same recipient's record fails and
/// leaves that record unchanged.
pub proof fn lemma_used_nonce_rejected(
    state: GlobalState,
    config: TokenConfig,
    pre: NonceAccount,
    mid: NonceAccount,
    ctx: ReceiveContext,
    p: ReceivePayload,
    digest: Seq<u8>,
    keys_digest: Seq<u8>,
    first: Result<ReceivePlan, CustomError>,
    state2: GlobalState,
    config2: TokenConfig,
    post: NonceAccount,
    ctx2: ReceiveContext,
    p2: ReceivePayload,
    digest2: Seq<u8>,
    keys_digest2: Seq<u8>,
    second: Result<ReceivePlan, CustomError>,
)
    requires
        receive_outcome(state, config, pre, mid, ctx, p, digest, keys_digest, first),
        first is Ok,
        p2.flag_data@.len() >= 8,
        replay_nonce(p2.flag_data@) == replay_nonce(p.flag_data@),
        receive_outcome(state2, config2, mid, post, ctx2, p2, digest2, keys_digest2, second),
    ensures
        second is Err,
        post == mid,
{
    assert(receive_check(state2, config2, mid, ctx2, p2, digest2, keys_digest2) is Err);
}

/// A Send while the bridge is paused fails with `Paused` and changes no
/// record; it hands back no movement, so no balance changes either.
pub proof fn lemma_paused_send_rejected(
    pre: GlobalState,
    post: GlobalState,
    config: TokenConfig,
    ctx: SendContext,
    args: Seq<u8>,
    digest: Seq<u8>,
    recipient: [u8; 20],
    r: Result<SendPlan, CustomError>,
)
    requires
        pre.pause,
        send_outcome(pre, post, config, ctx, args, digest, recipient, r),
    ensures
        r == Err::<SendPlan, CustomError>(CustomError::Paused),
        post == pre,
{
}

/// A Receive whose companion instruction signed anything but the digest of
/// the reconstructed payload fails with `InvalidSignature`, however valid
/// the rest of the call is.
pub proof fn lemma_receive_digest_mismatch_rejected(
    state: GlobalState,
    config: TokenConfig,
    pre: NonceAccount,
    post: NonceAccount,
    ctx: ReceiveContext,
    p: ReceivePayload,
    digest: Seq<u8>,
    keys_digest: Seq<u8>,
    r: Result<ReceivePlan, CustomError>,
)
    requires
        !state.pause,
        config.token@ == ctx.mint@,
        flag_data_fits(p.flag_data@),
        signed_message(ctx.instruction.data@) != digest,
        receive_outcome(state, config, pre, post, ctx, p, digest, keys_digest, r),
    ensures
        r == Err::<ReceivePlan, CustomError>(CustomError::InvalidSignature),
        post == pre,
{
}

/// An accepted Send of a synthetic token burns exactly the amount sent from
/// the sender and leaves the escrow as it is; of a native token it moves
/// exactly that amount from the sender into escrow and leaves the supply as
/// it is.
pub proof fn lemma_send_custody_effect(
    pre: GlobalState,
    post: GlobalState,
    config: TokenConfig,
    ctx: SendContext,
    args: Seq<u8>,
    digest: Seq<u8>,
    recipient: [u8; 20],
    plan: SendPlan,
    b: Balances,
)
    requires
        send_outcome(pre, post, config, ctx, args, digest, recipient, Ok(plan)),
        b.wf(),
        decoded_send_payload(args).amount_to_send <= b.user,
    ensures
        ({
            let a = decoded_send_payload(args).amount_to_send;
            &&& config.is_mintable ==> custody_effect(b, plan.custody) == Some(
                Balances { user: (b.user - a) as u64, escrow: b.escrow, supply: (b.supply - a) as u64 },
            )
            &&& !config.is_mintable ==> custody_effect(b, plan.custody) == Some(
                Balances { user: (b.user - a) as u64, escrow: (b.escrow + a) as u64, supply: b.supply },
            )
        }),
{
}

/// One call of a run of Sends: its configuration, context, payload bytes,
/// digest and recipient.
pub type SendCall = (TokenConfig, SendContext, Seq<u8>, Seq<u8>, [u8; 20]);

/// `states` and `plans` are the states passed through and the plans returned
/// by a run of accepted Sends, each starting where the one before ended.
pub open spec fn accepted_send_run(
    states: Seq<GlobalState>,
    calls: Seq<SendCall>,
    plans: Seq<SendPlan>,
) -> bool {
    &&& states.len() == calls.len() + 1
    &&& plans.len() == calls.len()
    &&& forall|i: int|
        0 <= i < calls.len() ==> send_outcome(
            #[trigger] states[i],
            states[i + 1],
            calls[i].0,
            calls[i].1,
            calls[i].2,
            calls[i].3,
            calls[i].4,
            Ok(plans[i]),
        )
}

proof fn lemma_send_run_prefix(
    states: Seq<GlobalState>,
    calls: Seq<SendCall>,
    plans: Seq<SendPlan>,
    k: int,
)
    requires
        accepted_send_run(states, calls, plans),
        0 <= k <= calls.len(),
    ensures
        states[k].nonce == states[0].nonce + k,
    decreases k,
{
    if k > 0 {
        lemma_send_run_prefix(states, calls, plans, k - 1);
        let i = k - 1;
        assert(send_outcome(
            states[i],
            states[i + 1],
            calls[i].0,
            calls[i].1,
            calls[i].2,
            calls[i].3,
            calls[i].4,
            Ok(plans[i]),
        ));
    }
}

/// Over a run of accepted Sends the outbound counter rises by exactly one per
/// Send, and each Send's event id is the counter's value just after it: the
/// ids are consecutive, with no gap and no repeat.
pub proof fn lemma_send_nonces_consecutive(
    states: Seq<GlobalState>,
    calls: Seq<SendCall>,
    plans: Seq<SendPlan>,
)
    requires
        accepted_send_run(states, calls, plans),
    ensures
        states[calls.len() as int].nonce == states[0].nonce + calls.len(),
        forall|i: int|
            0 <= i < plans.len() ==> #[trigger] plans[i].event.event_id == states[0].nonce + i + 1,
{
    lemma_send_run_prefix(states, calls, plans, calls.len() as int);
    assert forall|i: int| 0 <= i < plans.len() implies #[trigger] plans[i].event.event_id
        == states[0].nonce + i + 1 by {
        lemma_send_run_prefix(states, calls, plans, i + 1);
        assert(send_outcome(
            states[i],
            states[i + 1],
            calls[i].0,
            calls[i].1,
            calls[i].2,
            calls[i].3,
            calls[i].4,
            Ok(plans[i]),
        ));
    }
}

} // verus!
