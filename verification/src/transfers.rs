//! Transfers run for a client: before the prepare is sent, the callback
//! endpoints of both participants are pointed at the simulator, so that the
//! switch delivers the transfer's callbacks to it.
use vstd::prelude::*;
use vstd::string::*;

verus! {

/// The simulator's HTTP address, at which the switch reaches it.
pub open spec fn spec_callback_address(host_ip: Seq<char>) -> Seq<char> {
    "http://"@ + host_ip + ":3030"@
}

/// The address of the simulator's HTTP endpoints on the host with the given IP.
pub fn callback_address(host_ip: &str) -> (address: String)
    ensures
        address@ == spec_callback_address(host_ip@),
{
    let mut address = "http://".to_owned();
    address.append(host_ip);
    address.append(":3030");
    address
}

/// One endpoint of a participant to point at the simulator.
#[derive(Debug)]
pub struct CallbackOverride<P, T> {
    pub participant: P,
    pub callback_type: T,
}

/// The endpoint overrides made before a transfer from `sender` to
/// `recipient`: every callback type of the recipient, then every callback
/// type of the sender, in the order of `callback_types`.
pub open spec fn spec_callback_overrides<P, T>(sender: P, recipient: P, callback_types: Seq<T>) -> Seq<CallbackOverride<P, T>> {
    Seq::new(
        2 * callback_types.len(),
        |k: int|
            CallbackOverride {
                participant: if k < callback_types.len() { recipient } else { sender },
                callback_type: callback_types[k % (callback_types.len() as int)],
            },
    )
}

/// The endpoint overrides made before a transfer from `sender` to `recipient`.
pub fn callback_overrides<P: Copy, T: Copy>(
    sender: P,
    recipient: P,
    callback_types: &Vec<T>,
) -> (overrides: Vec<CallbackOverride<P, T>>)
    requires
        2 * callback_types.len() <= usize::MAX,
    ensures
        overrides@ == spec_callback_overrides(sender, recipient, callback_types@),
{
    let n: usize = callback_types.len();
    let mut overrides: Vec<CallbackOverride<P, T>> = Vec::new();
    let mut round: usize = 0;
    while round < 2
        invariant
            round <= 2,
            n == callback_types.len(),
            2 * n <= usize::MAX,
            overrides.len() == round * n,
            forall|k: int| 0 <= k < overrides.len() ==> {
                &&& (#[trigger] overrides[k]).participant == (if k < n { recipient } else { sender })
                &&& overrides[k].callback_type == callback_types[k % (n as int)]
            },
        decreases 2 - round,
    {
        let participant = if round == 0 { recipient } else { sender };
        let mut i: usize = 0;
        while i < n
            invariant
                round < 2,
                i <= n,
                n == callback_types.len(),
                2 * n <= usize::MAX,
                participant == (if round == 0 { recipient } else { sender }),
                overrides.len() == round * n + i,
                forall|k: int| 0 <= k < overrides.len() ==> {
                    &&& (#[trigger] overrides[k]).participant == (if k < n { recipient } else { sender })
                    &&& overrides[k].callback_type == callback_types[k % (n as int)]
                },
            decreases n - i,
        {
            let ghost k = overrides.len() as int;
            assert(k % (n as int) == i as int) by (nonlinear_arith)
                requires
                    k == round * n + i,
                    0 <= i < n,
                    round == 0 || round == 1,
            ;
            overrides.push(CallbackOverride { participant, callback_type: callback_types[i] });
            i = i + 1;
        }
        round = round + 1;
    }
    assert(overrides@ =~= spec_callback_overrides(sender, recipient, callback_types@));
    overrides
}

/// A transfer that a client asks to run: its two participants and its id.
#[derive(Debug)]
pub struct TransferRequest<P> {
    pub sender: P,
    pub recipient: P,
    pub transfer_id: u128,
}

/// One step in running a client's transfers.
#[derive(Debug)]
pub enum TransferStep<P, T> {
    /// Point the participant's endpoint of this callback type at the simulator.
    OverrideEndpoint(CallbackOverride<P, T>),
    /// Send the prepare of the transfer with this position in the request.
    SendPrepare(usize),
    /// Record that the message's callback is awaited for the client.
    AwaitCallback(crate::control_plane::FspiopMessageId),
}

/// The steps for one transfer, at position `index` in the request: its
/// endpoint overrides, then its prepare, then the recording of its callback
/// as awaited.
pub open spec fn spec_transfer_steps<P, T>(transfer: TransferRequest<P>, index: int, callback_types: Seq<T>) -> Seq<TransferStep<P, T>> {
    spec_callback_overrides(transfer.sender, transfer.recipient, callback_types).map_values(
        |o: CallbackOverride<P, T>| TransferStep::OverrideEndpoint(o),
    ) + seq![
        TransferStep::SendPrepare(index as usize),
        TransferStep::AwaitCallback(crate::control_plane::FspiopMessageId::TransferId(transfer.transfer_id)),
    ]
}

/// The steps for all the transfers of a request, one transfer after the other.
pub open spec fn spec_transfer_plan<P, T>(transfers: Seq<TransferRequest<P>>, callback_types: Seq<T>) -> Seq<TransferStep<P, T>>
    decreases transfers.len(),
{
    if transfers.len() == 0 {
        Seq::empty()
    } else {
        spec_transfer_plan(transfers.drop_last(), callback_types) + spec_transfer_steps(
            transfers.last(),
            transfers.len() - 1,
            callback_types,
        )
    }
}

/// The steps that run a client's transfers, in the order in which they are taken.
pub fn transfer_plan<P: Copy, T: Copy>(
    transfers: &Vec<TransferRequest<P>>,
    callback_types: &Vec<T>,
) -> (plan: Vec<TransferStep<P, T>>)
    requires
        2 * callback_types.len() <= usize::MAX,
    ensures
        plan@ == spec_transfer_plan(transfers@, callback_types@),
{
    let mut plan: Vec<TransferStep<P, T>> = Vec::new();
    let mut i: usize = 0;
    while i < transfers.len()
        invariant
            i <= transfers.len(),
            2 * callback_types.len() <= usize::MAX,
            plan@ == spec_transfer_plan(transfers@.take(i as int), callback_types@),
        decreases transfers.len() - i,
    {
        let t = &transfers[i];
        let overrides = callback_overrides(t.sender, t.recipient, callback_types);
        let ghost base = plan@;
        let mut j: usize = 0;
        while j < overrides.len()
            invariant
                j <= overrides.len(),
                overrides@ == spec_callback_overrides(t.sender, t.recipient, callback_types@),
                plan@ == base + overrides@.take(j as int).map_values(
                    |o: CallbackOverride<P, T>| TransferStep::OverrideEndpoint(o),
                ),
            decreases overrides.len() - j,
        {
            let o = CallbackOverride { participant: overrides[j].participant, callback_type: overrides[j].callback_type };
            plan.push(TransferStep::OverrideEndpoint(o));
            proof {
                assert(overrides@.take(j + 1) =~= overrides@.take(j as int).push(overrides@[j as int]));
                assert(overrides@.take(j + 1).map_values(|o: CallbackOverride<P, T>| TransferStep::OverrideEndpoint(o))
                    =~= overrides@.take(j as int).map_values(|o: CallbackOverride<P, T>| TransferStep::OverrideEndpoint(o)).push(
                        TransferStep::OverrideEndpoint(o)));
            }
            j = j + 1;
        }
        plan.push(TransferStep::SendPrepare(i));
        plan.push(TransferStep::AwaitCallback(crate::control_plane::FspiopMessageId::TransferId(t.transfer_id)));
        proof {
            assert(overrides@.take(overrides@.len() as int) =~= overrides@);
            assert(transfers@.take(i + 1).drop_last() =~= transfers@.take(i as int));
            assert(plan@ =~= spec_transfer_plan(transfers@.take(i as int), callback_types@) + spec_transfer_steps(
                transfers@[i as int], i as int, callback_types@));
        }
        i = i + 1;
    }
    assert(transfers@.take(transfers.len() as int) =~= transfers@);
    plan
}

/// The number of steps taken for each transfer.
pub open spec fn steps_per_transfer(n_callback_types: nat) -> int {
    2 * n_callback_types as int + 2
}

proof fn lemma_transfer_steps_len<P, T>(transfer: TransferRequest<P>, index: int, callback_types: Seq<T>)
    ensures
        spec_transfer_steps(transfer, index, callback_types).len() == steps_per_transfer(callback_types.len()),
{
}

/// Law: the steps of a request are, transfer after transfer, the steps of
/// each: for the transfer at position `i`, first every endpoint of its
/// recipient and of its sender is pointed at the simulator, then its
/// prepare is sent, then its callback is recorded as awaited.
pub proof fn law_transfer_plan_blocks<P, T>(transfers: Seq<TransferRequest<P>>, callback_types: Seq<T>, i: int)
    requires
        0 <= i < transfers.len(),
    ensures
        ({
            let m = steps_per_transfer(callback_types.len());
            let plan = spec_transfer_plan(transfers, callback_types);
            &&& plan.len() == transfers.len() * m
            &&& plan.subrange(i * m, (i + 1) * m) == spec_transfer_steps(transfers[i], i, callback_types)
            &&& forall|k: int| 0 <= k < 2 * callback_types.len() ==> #[trigger] plan[i * m + k]
                == TransferStep::<P, T>::OverrideEndpoint(
                    spec_callback_overrides(transfers[i].sender, transfers[i].recipient, callback_types)[k])
            &&& plan[i * m + 2 * callback_types.len()] == TransferStep::<P, T>::SendPrepare(i as usize)
            &&& plan[i * m + 2 * callback_types.len() + 1] == TransferStep::<P, T>::AwaitCallback(
                crate::control_plane::FspiopMessageId::TransferId(transfers[i].transfer_id))
        }),
    decreases transfers.len(),
{
    let m = steps_per_transfer(callback_types.len());
    let plan = spec_transfer_plan(transfers, callback_types);
    let prefix = transfers.drop_last();
    let prefix_plan = spec_transfer_plan(prefix, callback_types);
    let last = transfers.len() - 1;
    lemma_transfer_steps_len(transfers.last(), last, callback_types);
    assert(prefix_plan.len() == last * m) by {
        if last > 0 {
            law_transfer_plan_blocks(prefix, callback_types, 0);
        } else {
            assert(prefix.len() == 0);
        }
    }
    assert(plan == prefix_plan + spec_transfer_steps(transfers.last(), last, callback_types));
    assert(plan.len() == transfers.len() * m) by (nonlinear_arith)
        requires
            plan.len() == last * m + m,
            transfers.len() == last + 1,
    ;
    assert(0 <= i * m && (i + 1) * m == i * m + m && (i + 1) * m <= transfers.len() * m) by (nonlinear_arith)
        requires
            0 <= i < transfers.len(),
            m >= 2,
    ;
    if i < last {
        law_transfer_plan_blocks(prefix, callback_types, i);
        assert(prefix[i] == transfers[i]);
        assert((i + 1) * m <= last * m) by (nonlinear_arith)
            requires
                i + 1 <= last,
                m >= 2,
        ;
        assert(plan.subrange(i * m, (i + 1) * m) =~= prefix_plan.subrange(i * m, (i + 1) * m));
    } else {
        assert(i * m == last * m);
        assert(plan.subrange(i * m, (i + 1) * m) =~= spec_transfer_steps(transfers[i], i, callback_types));
    }
    let block = plan.subrange(i * m, (i + 1) * m);
    let steps = spec_transfer_steps(transfers[i], i, callback_types);
    let n2: int = 2 * callback_types.len() as int;
    assert forall|k: int| 0 <= k < n2 implies #[trigger] plan[i * m + k]
        == TransferStep::<P, T>::OverrideEndpoint(
            spec_callback_overrides(transfers[i].sender, transfers[i].recipient, callback_types)[k]) by {
        assert(plan[i * m + k] == block[k]);
        assert(steps[k] == TransferStep::<P, T>::OverrideEndpoint(
            spec_callback_overrides(transfers[i].sender, transfers[i].recipient, callback_types)[k]));
    }
    assert(plan[i * m + n2] == block[n2]);
    assert(plan[i * m + n2 + 1] == block[n2 + 1]);
}

} // verus!
