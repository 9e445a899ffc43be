//! The bridge controller: the Send and Receive transitions.
//!
//! Each call is all-or-nothing: every check runs before any record changes,
//! and a rejected call leaves every record as it was. The value movements and
//! the emitted record are handed back to the caller as a plan to carry out.
use crate::codec::{
    be_u64,
    bytes_with_len,
    decoded_send_payload,
    flag_data_fits,
    is_send_payload_encoding,
    lemma_send_payload_bytes_injective,
    read_u64_be,
    receive_payload_bytes,
    same_receive_payload,
    u64_le,
    ReceivePayload,
    SendPayload,
};
use crate::custody::{inbound_custody, outbound_custody, receive_custody, send_custody, CustodyOp};
use crate::digest::{keccak256, keccak256_of};
use crate::scale::{be_value, checked_scale_amount, scale_fits, scaled_value};
use crate::signature::{
    bytes_eq,
    check_receive_signature,
    receive_signature_valid,
    send_signature_valid,
    signer_keys,
    signer_keys_digest,
    verify_send_signature,
    CompanionInstruction,
};
use crate::state::{
    CustomError,
    GlobalState,
    NonceAccount,
    TokenConfig,
    AMB_CHAIN_ID,
    SIGNATURE_VALIDITY_TIME,
    SOLANA_CHAIN_ID,
};
use vstd::prelude::*;

verus! {

/// What Send reads of its accounts and of the runtime.
#[derive(Clone, Debug, PartialEq, Eq)]
pub struct SendContext {
    pub sender: [u8; 32],
    /// The local mint of the token sent.
    pub mint: [u8; 32],
    pub mint_decimals: u8,
    /// The current unix time, in seconds.
    pub now: u64,
    /// The instruction just before the bridge's in the transaction.
    pub instruction: CompanionInstruction,
}

/// What Receive reads of its accounts and of the runtime.
#[derive(Clone, Debug, PartialEq, Eq)]
pub struct ReceiveContext {
    pub receiver: [u8; 32],
    /// The local mint of the token delivered.
    pub mint: [u8; 32],
    /// The instruction just before the bridge's in the transaction.
    pub instruction: CompanionInstruction,
}

/// The record of an accepted outbound transfer.
#[derive(Clone, Debug, PartialEq, Eq)]
pub struct SendEvent {
    pub from: [u8; 32],
    /// Recipient on the remote chain.
    pub to: [u8; 20],
    pub token_address_from: [u8; 32],
    pub token_address_to: [u8; 20],
    pub amount_from: u64,
    /// The amount rescaled to the remote decimals, 32 bytes big-endian.
    pub amount_to: [u8; 32],
    pub chain_from: u64,
    pub chain_to: u64,
    /// The outbound counter after this transfer.
    pub event_id: u64,
    pub flags: [u8; 32],
    pub flag_data: Vec<u8>,
}

/// What an accepted Send leaves to carry out: collect the fee in native
/// currency, make the custody movement, emit the event.
#[derive(Clone, Debug, PartialEq, Eq)]
pub struct SendPlan {
    pub fee_amount: u64,
    pub custody: CustodyOp,
    pub event: SendEvent,
}

/// What an accepted Receive leaves to carry out: make the custody movement,
/// emit the payload as its record.
#[derive(Clone, Debug, PartialEq, Eq)]
pub struct ReceivePlan {
    pub custody: CustodyOp,
    pub event: ReceivePayload,
}

/// An authorization issued at `timestamp` is still valid at `now`.
pub open spec fn authorization_fresh(now: u64, timestamp: u64) -> bool {
    now < timestamp + SIGNATURE_VALIDITY_TIME
}

/// The first check that a Send fails, in the order the checks run, or `Ok`.
pub open spec fn send_check(
    state: GlobalState,
    config: TokenConfig,
    ctx: SendContext,
    args: Seq<u8>,
    digest: Seq<u8>,
) -> Result<(), CustomError> {
    let p = decoded_send_payload(args);
    if state.pause {
        Err(CustomError::Paused)
    } else if config.token@ != ctx.mint@ {
        Err(CustomError::InvalidToken)
    } else if !is_send_payload_encoding(args) {
        Err(CustomError::InvalidSerialization)
    } else if !send_signature_valid(ctx.instruction, digest, state.send_signer@) {
        Err(CustomError::InvalidSignature)
    } else if p.chain_from != SOLANA_CHAIN_ID || p.chain_to != AMB_CHAIN_ID {
        Err(CustomError::InvalidArgs)
    } else if !authorization_fresh(ctx.now, p.timestamp) {
        Err(CustomError::InvalidArgs)
    } else if ctx.mint@ != p.token_address@ || config.amb_token@ != p.token_address_to@ {
        Err(CustomError::InvalidArgs)
    } else if state.nonce == u64::MAX || !scale_fits(
        p.amount_to_send,
        ctx.mint_decimals,
        config.amb_decimals,
    ) {
        Err(CustomError::ArithmeticOverflow)
    } else {
        Ok(())
    }
}

/// The global state after an accepted Send: the outbound counter advanced by one.
pub open spec fn after_send(s: GlobalState) -> GlobalState {
    GlobalState { nonce: (s.nonce + 1) as u64, ..s }
}

/// `ev` records the transfer of payload `p` by `ctx.sender` to `recipient`
/// under event id `event_id`.
pub open spec fn send_event_valid(
    ev: SendEvent,
    config: TokenConfig,
    ctx: SendContext,
    p: SendPayload,
    recipient: [u8; 20],
    event_id: u64,
) -> bool {
    &&& ev.from@ == ctx.sender@
    &&& ev.to@ == recipient@
    &&& ev.token_address_from@ == ctx.mint@
    &&& ev.token_address_to@ == p.token_address_to@
    &&& ev.amount_from == p.amount_to_send
    &&& be_value(ev.amount_to@) == scaled_value(
        p.amount_to_send,
        ctx.mint_decimals,
        config.amb_decimals,
    )
    &&& ev.chain_from == SOLANA_CHAIN_ID
    &&& ev.chain_to == AMB_CHAIN_ID
    &&& ev.event_id == event_id
    &&& ev.flags@ == p.flags@
    &&& ev.flag_data@ == p.flag_data@
}

/// Send from `pre` gave `r` and left `post`, the payload `args` being
/// authorized through `digest`.
pub open spec fn send_outcome(
    pre: GlobalState,
    post: GlobalState,
    config: TokenConfig,
    ctx: SendContext,
    args: Seq<u8>,
    digest: Seq<u8>,
    recipient: [u8; 20],
    r: Result<SendPlan, CustomError>,
) -> bool {
    let p = decoded_send_payload(args);
    match send_check(pre, config, ctx, args, digest) {
        Err(e) => r == Err::<SendPlan, CustomError>(e) && post == pre,
        Ok(_) => match r {
            Ok(plan) => {
                &&& post == after_send(pre)
                &&& plan.fee_amount == p.fee_amount
                &&& plan.custody == outbound_custody(config, p.amount_to_send)
                &&& send_event_valid(plan.event, config, ctx, p, recipient, post.nonce)
            },
            Err(_) => false,
        },
    }
}

/// Outbound transfer, given the digest of `serialized_args`.
pub fn send_with_digest(
    state: &mut GlobalState,
    config: &TokenConfig,
    ctx: &SendContext,
    serialized_args: &[u8],
    args_digest: &[u8; 32],
    recipient: [u8; 20],
) -> (r: Result<SendPlan, CustomError>)
    ensures
        send_outcome(
            *old(state),
            *final(state),
            *config,
            *ctx,
            serialized_args@,
            args_digest@,
            recipient,
            r,
        ),
{
    if state.pause {
        return Err(CustomError::Paused);
    }
    if !bytes_eq(config.token.as_slice(), ctx.mint.as_slice()) {
        return Err(CustomError::InvalidToken);
    }
    let args = match SendPayload::try_from_slice(serialized_args) {
        Ok(a) => a,
        Err(e) => {
            return Err(e);
        },
    };
    proof {
        let q = decoded_send_payload(serialized_args@);
        lemma_send_payload_bytes_injective(args, q);
    }
    match verify_send_signature(&ctx.instruction, args_digest, &state.send_signer) {
        Ok(()) => {},
        Err(e) => {
            return Err(e);
        },
    }
    if args.chain_from != SOLANA_CHAIN_ID || args.chain_to != AMB_CHAIN_ID {
        return Err(CustomError::InvalidArgs);
    }
    if !(ctx.now < args.timestamp || ctx.now - args.timestamp < SIGNATURE_VALIDITY_TIME) {
        return Err(CustomError::InvalidArgs);
    }
    if !bytes_eq(ctx.mint.as_slice(), args.token_address.as_slice()) || !bytes_eq(
        config.amb_token.as_slice(),
        args.token_address_to.as_slice(),
    ) {
        return Err(CustomError::InvalidArgs);
    }
    if state.nonce == u64::MAX {
        return Err(CustomError::ArithmeticOverflow);
    }
    let amount_to = match checked_scale_amount(
        args.amount_to_send,
        ctx.mint_decimals,
        config.amb_decimals,
    ) {
        Some(b) => b,
        None => {
            return Err(CustomError::ArithmeticOverflow);
        },
    };
    state.nonce = state.nonce + 1;
    let custody = send_custody(config, args.amount_to_send);
    let event = SendEvent {
        from: ctx.sender,
        to: recipient,
        token_address_from: ctx.mint,
        token_address_to: args.token_address_to,
        amount_from: args.amount_to_send,
        amount_to,
        chain_from: SOLANA_CHAIN_ID,
        chain_to: AMB_CHAIN_ID,
        event_id: state.nonce,
        flags: args.flags,
        flag_data: args.flag_data,
    };
    Ok(SendPlan { fee_amount: args.fee_amount, custody, event })
}

/// Outbound transfer: checks the bridge is running, decodes the signed
/// payload, checks its authorization by the send signer over the payload's
/// digest, its chains, freshness and token binding, then advances the
/// outbound counter and returns the fee, custody movement and event to carry out.
pub fn send(
    state: &mut GlobalState,
    config: &TokenConfig,
    ctx: &SendContext,
    serialized_args: &[u8],
    recipient: [u8; 20],
) -> (r: Result<SendPlan, CustomError>)
    ensures
        send_outcome(
            *old(state),
            *final(state),
            *config,
            *ctx,
            serialized_args@,
            keccak256_of(serialized_args@),
            recipient,
            r,
        ),
{
    let digest = keccak256(serialized_args);
    send_with_digest(state, config, ctx, serialized_args, &digest, recipient)
}

/// The canonical bytes of the inbound payload that Receive reconstructs.
pub open spec fn inbound_payload_bytes(
    ctx: ReceiveContext,
    amount_to: u64,
    event_id: u64,
    flags: Seq<u8>,
    flag_data: Seq<u8>,
) -> Seq<u8> {
    ctx.receiver@ + ctx.mint@ + u64_le(amount_to) + u64_le(AMB_CHAIN_ID) + u64_le(SOLANA_CHAIN_ID)
        + u64_le(event_id) + flags + bytes_with_len(flag_data)
}

/// `p` is the inbound payload that Receive reconstructs from its arguments.
pub open spec fn is_inbound_payload(
    p: ReceivePayload,
    ctx: ReceiveContext,
    amount_to: u64,
    event_id: u64,
    flags: Seq<u8>,
    flag_data: Seq<u8>,
) -> bool {
    &&& p.to@ == ctx.receiver@
    &&& p.token_address_to@ == ctx.mint@
    &&& p.amount_to == amount_to
    &&& p.chain_from == AMB_CHAIN_ID
    &&& p.chain_to == SOLANA_CHAIN_ID
    &&& p.event_id == event_id
    &&& p.flags@ == flags
    &&& p.flag_data@ == flag_data
}

/// The replay nonce that flag data carries: its first 8 bytes, big-endian.
pub open spec fn replay_nonce(flag_data: Seq<u8>) -> u64 {
    be_u64(flag_data)
}

/// The first check that a Receive of payload `p` fails, in the order the
/// checks run, or `Ok`.
pub open spec fn receive_check(
    state: GlobalState,
    config: TokenConfig,
    account: NonceAccount,
    ctx: ReceiveContext,
    p: ReceivePayload,
    digest: Seq<u8>,
    keys_digest: Seq<u8>,
) -> Result<(), CustomError> {
    if state.pause {
        Err(CustomError::Paused)
    } else if config.token@ != ctx.mint@ {
        Err(CustomError::InvalidToken)
    } else if !flag_data_fits(p.flag_data@) {
        Err(CustomError::InvalidSerialization)
    } else if !receive_signature_valid(
        ctx.instruction,
        digest,
        keys_digest,
        state.receive_signer@,
    ) {
        Err(CustomError::InvalidSignature)
    } else if p.token_address_to@ != ctx.mint@ || p.to@ != ctx.receiver@ || p.chain_from
        != AMB_CHAIN_ID || p.chain_to != SOLANA_CHAIN_ID {
        Err(CustomError::InvalidArgs)
    } else if p.flag_data@.len() < 8 || replay_nonce(p.flag_data@) != account.nonce_counter {
        Err(CustomError::InvalidNonce)
    } else if account.nonce_counter == u64::MAX {
        Err(CustomError::ArithmeticOverflow)
    } else {
        Ok(())
    }
}

/// Receive of payload `p` gave `r` and took the recipient's nonce record from
/// `pre` to `post`.
pub open spec fn receive_outcome(
    state: GlobalState,
    config: TokenConfig,
    pre: NonceAccount,
    post: NonceAccount,
    ctx: ReceiveContext,
    p: ReceivePayload,
    digest: Seq<u8>,
    keys_digest: Seq<u8>,
    r: Result<ReceivePlan, CustomError>,
) -> bool {
    match receive_check(state, config, pre, ctx, p, digest, keys_digest) {
        Err(e) => r == Err::<ReceivePlan, CustomError>(e) && post == pre,
        Ok(_) => match r {
            Ok(plan) => {
                &&& post.nonce_counter == pre.nonce_counter + 1
                &&& plan.custody == inbound_custody(config, p.amount_to)
                &&& same_receive_payload(plan.event, p)
            },
            Err(_) => false,
        },
    }
}

/// The inbound payload for these arguments, bound to the chains' ids.
pub fn inbound_payload(
    ctx: &ReceiveContext,
    amount_to: u64,
    event_id: u64,
    flags: [u8; 32],
    flag_data: Vec<u8>,
) -> (r: ReceivePayload)
    ensures
        is_inbound_payload(r, *ctx, amount_to, event_id, flags@, flag_data@),
{
    ReceivePayload {
        to: ctx.receiver,
        token_address_to: ctx.mint,
        amount_to,
        chain_from: AMB_CHAIN_ID,
        chain_to: SOLANA_CHAIN_ID,
        event_id,
        flags,
        flag_data,
    }
}

/// Inbound transfer of `payload`, given the digest of its canonical bytes and
/// the digest of the companion instruction's signer keys.
pub fn receive_with_digests(
    state: &GlobalState,
    config: &TokenConfig,
    nonce_account: &mut NonceAccount,
    ctx: &ReceiveContext,
    payload: ReceivePayload,
    payload_digest: &[u8; 32],
    keys_digest: &[u8; 32],
) -> (r: Result<ReceivePlan, CustomError>)
    ensures
        receive_outcome(
            *state,
            *config,
            *old(nonce_account),
            *final(nonce_account),
            *ctx,
            payload,
            payload_digest@,
            keys_digest@,
            r,
        ),
{
    if state.pause {
        return Err(CustomError::Paused);
    }
    if !bytes_eq(config.token.as_slice(), ctx.mint.as_slice()) {
        return Err(CustomError::InvalidToken);
    }
    if payload.flag_data.len() > u32::MAX as usize {
        return Err(CustomError::InvalidSerialization);
    }
    match check_receive_signature(
        &ctx.instruction,
        payload_digest,
        keys_digest,
        &state.receive_signer,
    ) {
        Ok(()) => {},
        Err(e) => {
            return Err(e);
        },
    }
    if !bytes_eq(payload.token_address_to.as_slice(), ctx.mint.as_slice()) || !bytes_eq(
        payload.to.as_slice(),
        ctx.receiver.as_slice(),
    ) || payload.chain_from != AMB_CHAIN_ID || payload.chain_to != SOLANA_CHAIN_ID {
        return Err(CustomError::InvalidArgs);
    }
    if payload.flag_data.len() < 8 {
        return Err(CustomError::InvalidNonce);
    }
    let nonce = read_u64_be(payload.flag_data.as_slice(), 0);
    match nonce_account.check_and_advance(nonce) {
        Ok(()) => {},
        Err(e) => {
            return Err(e);
        },
    }
    let custody = receive_custody(config, payload.amount_to);
    Ok(ReceivePlan { custody, event: payload })
}

/// Inbound transfer: checks the bridge is running, reconstructs the payload
/// from the arguments and the chains' ids, checks its authorization by the
/// receive committee over the payload's digest, then advances the recipient's
/// replay counter against the nonce in the flag data and returns the custody
/// movement and the record to carry out.
pub fn receive(
    state: &GlobalState,
    config: &TokenConfig,
    nonce_account: &mut NonceAccount,
    ctx: &ReceiveContext,
    amount_to: u64,
    event_id: u64,
    flags: [u8; 32],
    flag_data: Vec<u8>,
) -> (r: Result<ReceivePlan, CustomError>)
    ensures
        r matches Ok(plan) ==> is_inbound_payload(
            plan.event,
            *ctx,
            amount_to,
            event_id,
            flags@,
            flag_data@,
        ),
        forall|p: ReceivePayload|
            is_inbound_payload(p, *ctx, amount_to, event_id, flags@, flag_data@)
                ==> #[trigger] receive_outcome(
                *state,
                *config,
                *old(nonce_account),
                *final(nonce_account),
                *ctx,
                p,
                keccak256_of(inbound_payload_bytes(*ctx, amount_to, event_id, flags@, flag_data@)),
                keccak256_of(signer_keys(ctx.instruction.data@)),
                r,
            ),
{
    let payload = inbound_payload(ctx, amount_to, event_id, flags, flag_data);
    proof {
        assert(receive_payload_bytes(payload) =~= inbound_payload_bytes(
            *ctx,
            amount_to,
            event_id,
            flags@,
            flag_data@,
        ));
    }
    let digest = match payload.try_to_vec() {
        Ok(bytes) => keccak256(bytes.as_slice()),
        Err(_) => [0u8; 32],
    };
    let keys_digest = if ctx.instruction.data.len() >= 34 {
        signer_keys_digest(&ctx.instruction)
    } else {
        [0u8; 32]
    };
    receive_with_digests(state, config, nonce_account, ctx, payload, &digest, &keys_digest)
}

} // verus!
