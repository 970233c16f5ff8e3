//! Which commands a virtual machine takes in which state, and how its
//! configuration follows the network devices that come and go.
use crate::text;
use crate::vm::error::VmServiceError;
use crate::vm::{NetConfig, VmState};
use vstd::prelude::*;

verus! {

/// A command whose sense depends on the state of the virtual machine.
#[derive(Clone, Copy, Debug, PartialEq, Eq, Structural)]
pub enum Operation {
    Start,
    Shutdown,
    Pause,
    Resume,
    Console,
}

/// Whether a command is taken in a state: what was created or stopped can be
/// started, what runs can be shut down, paused and watched, and what is paused can
/// be resumed.
pub open spec fn allowed(op: Operation, state: VmState) -> bool {
    match op {
        Operation::Start => state == VmState::Created || state == VmState::Stopped,
        Operation::Shutdown => state == VmState::Running,
        Operation::Pause => state == VmState::Running,
        Operation::Resume => state == VmState::Paused,
        Operation::Console => state == VmState::Running,
    }
}

/// What a command that is not taken is answered.
pub open spec fn refusal(op: Operation, state: VmState) -> Seq<char> {
    (match op {
        Operation::Start => "Cannot start VM in state "@,
        Operation::Shutdown => "Cannot shut down VM in state "@,
        Operation::Pause => "Cannot pause VM in state "@,
        Operation::Resume => "Cannot resume VM in state "@,
        Operation::Console => "Cannot open console of VM in state "@,
    }) + state.label()
}

/// Checks that a command is taken in a state.
pub fn check_state(op: Operation, state: VmState) -> (r: Result<(), VmServiceError>)
    ensures
        match r {
            Ok(_) => allowed(op, state),
            Err(e) => !allowed(op, state) && (e matches VmServiceError::InvalidState(m) && m@
                == refusal(op, state)),
        },
{
    let fits = match op {
        Operation::Start => state == VmState::Created || state == VmState::Stopped,
        Operation::Shutdown => state == VmState::Running,
        Operation::Pause => state == VmState::Running,
        Operation::Resume => state == VmState::Paused,
        Operation::Console => state == VmState::Running,
    };
    if fits {
        return Ok(());
    }
    let what = match op {
        Operation::Start => "Cannot start VM in state ",
        Operation::Shutdown => "Cannot shut down VM in state ",
        Operation::Pause => "Cannot pause VM in state ",
        Operation::Resume => "Cannot resume VM in state ",
        Operation::Console => "Cannot open console of VM in state ",
    };
    Err(VmServiceError::InvalidState(text::cat2(what, state.name())))
}

/// Whether a network device of this name is among these.
pub open spec fn has_nic(nics: Seq<NetConfig>, device_id: Seq<char>) -> bool {
    exists|i: int| 0 <= i < nics.len() && (#[trigger] nics[i]).device_id@ == device_id
}

/// The network devices of all other names, in order.
pub open spec fn without_nic(nics: Seq<NetConfig>, device_id: Seq<char>) -> Seq<NetConfig>
    decreases nics.len(),
{
    if nics.len() == 0 {
        Seq::empty()
    } else if nics.last().device_id@ == device_id {
        without_nic(nics.drop_last(), device_id)
    } else {
        without_nic(nics.drop_last(), device_id).push(nics.last())
    }
}

/// Adds a network device to a configuration, under the name that it was given.
pub fn record_attached_nic(nics: &mut Vec<NetConfig>, nic: NetConfig, device_id: String)
    ensures
        final(nics)@ == old(nics)@.push(NetConfig { device_id, ..nic }),
{
    nics.push(NetConfig { device_id, mac_address: nic.mac_address, backend: nic.backend });
}

/// Takes the network devices of a name out of a configuration.
pub fn record_removed_nic(nics: Vec<NetConfig>, device_id: &str) -> (r: Vec<NetConfig>)
    ensures
        r@ == without_nic(nics@, device_id@),
{
    let ghost all = nics@;
    let mut rest = nics;
    let mut kept: Vec<NetConfig> = Vec::new();
    let ghost mut done: int = 0;
    assert(all.take(0) =~= Seq::<NetConfig>::empty());
    while rest.len() > 0
        invariant
            0 <= done,
            done + rest@.len() == all.len(),
            rest@ == all.skip(done),
            kept@ == without_nic(all.take(done), device_id@),
        decreases rest@.len(),
    {
        assert(rest@[0] == all[done]);
        let nic = rest.remove(0);
        proof {
            assert(all.take(done + 1).drop_last() =~= all.take(done));
            assert(all.take(done + 1).last() == nic);
            done = done + 1;
            assert(rest@ =~= all.skip(done));
        }
        if !text::same(nic.device_id.as_str(), device_id) {
            kept.push(nic);
        }
    }
    assert(all.take(done) =~= all);
    kept
}

/// A network device that was added is in the configuration.
pub proof fn attached_nic_is_found(nics: Seq<NetConfig>, nic: NetConfig, device_id: String)
    ensures
        has_nic(nics.push(NetConfig { device_id, ..nic }), device_id@),
{
    let after = nics.push(NetConfig { device_id, ..nic });
    assert(after[nics.len() as int].device_id@ == device_id@);
}

/// A network device that was removed is not in the configuration any more, and
/// every device of another name still is.
pub proof fn removed_nic_is_not_found(nics: Seq<NetConfig>, device_id: Seq<char>)
    ensures
        !has_nic(without_nic(nics, device_id), device_id),
        forall|other: Seq<char>|
            other != device_id ==> (has_nic(nics, other) <==> #[trigger] has_nic(
                without_nic(nics, device_id),
                other,
            )),
    decreases nics.len(),
{
    if nics.len() > 0 {
        let init = nics.drop_last();
        let last = nics.last();
        removed_nic_is_not_found(init, device_id);
        let kept = without_nic(init, device_id);
        let all = without_nic(nics, device_id);
        assert forall|other: Seq<char>| other != device_id implies (has_nic(nics, other)
            <==> #[trigger] has_nic(all, other)) by {
            if has_nic(nics, other) {
                let i = choose|i: int|
                    0 <= i < nics.len() && (#[trigger] nics[i]).device_id@ == other;
                if i < init.len() {
                    assert(init[i].device_id@ == other);
                    assert(has_nic(kept, other));
                    let j = choose|j: int|
                        0 <= j < kept.len() && (#[trigger] kept[j]).device_id@ == other;
                    assert(all[j].device_id@ == other);
                } else {
                    assert(all[kept.len() as int].device_id@ == other);
                }
            }
            if has_nic(all, other) {
                let j = choose|j: int|
                    0 <= j < all.len() && (#[trigger] all[j]).device_id@ == other;
                if j < kept.len() {
                    assert(kept[j].device_id@ == other);
                    assert(has_nic(kept, other));
                    assert(has_nic(init, other));
                    let i = choose|i: int|
                        0 <= i < init.len() && (#[trigger] init[i]).device_id@ == other;
                    assert(nics[i].device_id@ == other);
                } else {
                    assert(nics[nics.len() - 1].device_id@ == other);
                }
            }
        }
        if has_nic(all, device_id) {
            let j = choose|j: int|
                0 <= j < all.len() && (#[trigger] all[j]).device_id@ == device_id;
            assert(j < kept.len());
            assert(kept[j].device_id@ == device_id);
        }
    }
}

/// Removing a network device right after it was added gives the configuration back,
/// where no other device has its name.
pub proof fn removal_undoes_attachment(nics: Seq<NetConfig>, nic: NetConfig, device_id: String)
    requires
        !has_nic(nics, device_id@),
    ensures
        without_nic(nics.push(NetConfig { device_id, ..nic }), device_id@) == nics,
{
    let added = NetConfig { device_id, ..nic };
    assert(nics.push(added).drop_last() =~= nics);
    lemma_without_absent(nics, device_id@);
}

proof fn lemma_without_absent(nics: Seq<NetConfig>, device_id: Seq<char>)
    requires
        !has_nic(nics, device_id),
    ensures
        without_nic(nics, device_id) == nics,
    decreases nics.len(),
{
    if nics.len() > 0 {
        let init = nics.drop_last();
        assert(nics[nics.len() - 1].device_id@ != device_id);
        if has_nic(init, device_id) {
            let i = choose|i: int|
                0 <= i < init.len() && (#[trigger] init[i]).device_id@ == device_id;
            assert(nics[i].device_id@ == device_id);
        }
        lemma_without_absent(init, device_id);
        assert(init.push(nics.last()) =~= nics);
    } else {
        assert(nics =~= Seq::<NetConfig>::empty());
    }
}

} // verus!
