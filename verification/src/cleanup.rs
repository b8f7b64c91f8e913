//! Clean-up of a parachain's state across the runtime modules that keep some.

use vstd::prelude::*;

verus! {

/// The index of a parachain.
pub type ParaId = u32;

/// A runtime module that keeps state of a parachain.
#[derive(Clone, Copy, PartialEq, Eq, Debug)]
pub enum ParaModule {
    /// Parachain registration and code.
    Paras,
    /// Downward message passing.
    Dmp,
    /// Upward message passing.
    Ump,
    /// Horizontally relay-routed message passing.
    Hrmp,
}

/// Something that schedules the clean-up of a parachain: it gives the
/// clean-ups to schedule, module by module, in the order in which the modules
/// are to be told.
///
/// Outside verified code, `cleanups` is an ordinary required method that is
/// never called.
pub trait ParachainCleanup {
    /// The clean-ups that this scheduler schedules for parachain `id`.
    spec fn cleanups(id: ParaId) -> Seq<(ParaModule, ParaId)>;

    fn schedule_para_cleanup(id: ParaId) -> (steps: Vec<(ParaModule, ParaId)>)
        ensures
            steps@ == Self::cleanups(id),
    ;
}

/// The clean-up of a parachain in every module that keeps state of it.
pub struct AllParachainCleanup;

impl ParachainCleanup for AllParachainCleanup {
    /// Registration first, then each message-passing module.
    open spec fn cleanups(id: ParaId) -> Seq<(ParaModule, ParaId)> {
        seq![(ParaModule::Paras, id), (ParaModule::Dmp, id), (ParaModule::Ump, id), (ParaModule::Hrmp, id)]
    }

    fn schedule_para_cleanup(id: ParaId) -> (steps: Vec<(ParaModule, ParaId)>) {
        let mut steps: Vec<(ParaModule, ParaId)> = Vec::new();
        steps.push((ParaModule::Paras, id));
        steps.push((ParaModule::Dmp, id));
        steps.push((ParaModule::Ump, id));
        steps.push((ParaModule::Hrmp, id));
        steps
    }
}

/// The clean-up of a parachain reaches every module that keeps its state, each
/// once and for that parachain alone: registration first, then downward,
/// upward and horizontal message passing.
pub proof fn lemma_all_cleanup_covers_every_module(id: ParaId)
    ensures
        AllParachainCleanup::cleanups(id).len() == 4,
        forall|i: int| 0 <= i < 4 ==> (#[trigger] AllParachainCleanup::cleanups(id)[i]).1 == id,
        forall|i: int, j: int|
            0 <= i < j < 4 ==> (#[trigger] AllParachainCleanup::cleanups(id)[i]).0 != (
            #[trigger] AllParachainCleanup::cleanups(id)[j]).0,
        forall|module: ParaModule| AllParachainCleanup::cleanups(id).contains((module, id)),
        AllParachainCleanup::cleanups(id)[0].0 == ParaModule::Paras,
        AllParachainCleanup::cleanups(id)[1].0 == ParaModule::Dmp,
        AllParachainCleanup::cleanups(id)[2].0 == ParaModule::Ump,
        AllParachainCleanup::cleanups(id)[3].0 == ParaModule::Hrmp,
{
    let c = AllParachainCleanup::cleanups(id);
    assert forall|module: ParaModule| c.contains((module, id)) by {
        match module {
            ParaModule::Paras => assert(c[0] == (module, id)),
            ParaModule::Dmp => assert(c[1] == (module, id)),
            ParaModule::Ump => assert(c[2] == (module, id)),
            ParaModule::Hrmp => assert(c[3] == (module, id)),
        }
    }
}

/// The empty tuple of schedulers schedules nothing.
impl ParachainCleanup for () {
    open spec fn cleanups(id: ParaId) -> Seq<(ParaModule, ParaId)> {
        Seq::empty()
    }

    fn schedule_para_cleanup(id: ParaId) -> (steps: Vec<(ParaModule, ParaId)>) {
        Vec::new()
    }
}

} // verus!
