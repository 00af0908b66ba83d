//! Listing Targets as Browser Core saw them at one moment.
//!
//! Core says which Targets there are, and in which order. A Target whose slot
//! is not exactly the one that Core saw is not listed.
use vstd::prelude::*;

use crate::connection::core_record::{BrowserContextHandle, BrowserTargetHandle};
use crate::connection::errors::{
    BrowserContextProjectionError, BrowserTargetRegistryError, ContextRefusal, TargetProjectionError,
    TargetRefusal,
};
use crate::connection::slots::{BrowserContext, ContextModel, TargetPlace};
use crate::connection::state::{CdpConnection, ConnectionModel};
use crate::devtools::{DevToolsError, DevToolsErrorKind, DevToolsTargetInfo, DevToolsTargetKind};
use crate::facts::types::PageResidenceIdentity;

verus! {

/// One Target as Browser Core saw it.
pub struct BrowserTargetStateSnapshot {
    pub browser_context: BrowserContextHandle,
    pub target: BrowserTargetHandle,
    pub page: PageResidenceIdentity,
}

/// One context as Browser Core saw it.
pub struct BrowserContextTargetSnapshot {
    pub browser_context: BrowserContextHandle,
    pub targets: Vec<BrowserTargetStateSnapshot>,
}

/// All contexts as one Browser Core saw them.
pub struct BrowserTopLevelTargetSnapshot {
    pub browser_instance: u64,
    pub contexts: Vec<BrowserContextTargetSnapshot>,
}

/// Why nothing was seen.
pub enum SnapshotError {
    Contexts(BrowserContextProjectionError),
    Targets(TargetProjectionError),
}

/// Why nothing was seen, over characters.
#[verifier::ext_equal]
pub enum SnapshotRefusal {
    Contexts(ContextRefusal),
    Targets(TargetRefusal),
}

impl View for SnapshotError {
    type V = SnapshotRefusal;

    open spec fn view(&self) -> SnapshotRefusal {
        match *self {
            SnapshotError::Contexts(error) => SnapshotRefusal::Contexts(error@),
            SnapshotError::Targets(error) => SnapshotRefusal::Targets(error@),
        }
    }
}

impl ConnectionModel {
    /// Whether what was seen of a context still holds.
    pub open spec fn context_snapshot_current(self, snapshot: BrowserContextTargetSnapshot) -> bool {
        self.core.context_handle_current(snapshot.browser_context)
    }

    /// Whether what was seen of a Target still holds.
    pub open spec fn target_snapshot_current(self, snapshot: BrowserTargetStateSnapshot) -> bool {
        &&& self.core.context_handle_current(snapshot.browser_context)
        &&& self.core.target_handle_current(snapshot.target)
        &&& self.core.page_current(
            snapshot.browser_context.browser_context_id@,
            snapshot.target.target_id@,
            snapshot.page.residence.instance,
        )
    }
}

impl ContextModel {
    /// The slot of a Target, with the Target.
    pub open spec fn handle_at(self, place: TargetPlace) -> BrowserTargetHandle {
        match place {
            TargetPlace::Active => self.active.handle->Some_0,
            TargetPlace::Background(index) => self.background[index as int].handle,
        }
    }

    /// How a Target is listed.
    pub open spec fn target_info(self, place: TargetPlace) -> DevToolsTargetInfo {
        DevToolsTargetInfo {
            target_id: self.handle_at(place).target_id,
            browser_context_id: self.id,
            kind: DevToolsTargetKind::Page,
            url: self.slot_at(place).target_url,
            moli_popup_id: None,
        }
    }

    /// How the workers of the context are listed.
    pub open spec fn worker_infos(self) -> Seq<DevToolsTargetInfo> {
        Seq::new(
            self.workers.len(),
            |index: int|
                DevToolsTargetInfo {
                    target_id: self.workers[index].target_id,
                    browser_context_id: self.id,
                    kind: DevToolsTargetKind::Worker,
                    url: self.workers[index].url,
                    moli_popup_id: None,
                },
        )
    }
}

/// Lists one Target, or says why its slot is not the one that was seen.
pub open spec fn project_target(
    model: ConnectionModel,
    snapshot: BrowserTargetStateSnapshot,
) -> Result<DevToolsTargetInfo, TargetRefusal> {
    let id = snapshot.browser_context.browser_context_id@;
    let target = snapshot.target.target_id@;
    if !model.target_snapshot_current(snapshot) {
        Err(
            TargetRefusal::StaleTopLevelTargetSnapshot {
                browser_context_id: id,
                target_id: target,
            },
        )
    } else {
        match model.context(id) {
            None => Err(TargetRefusal::PhysicalBrowserContextMissing(id)),
            Some(context) => if !context.handle.same(&snapshot.browser_context) {
                Err(TargetRefusal::PhysicalBrowserContextHandleMismatch(id))
            } else {
                match context.target_place(target) {
                    None => Err(
                        TargetRefusal::PhysicalTargetMissing {
                            browser_context_id: id,
                            target_id: target,
                        },
                    ),
                    Some(place) => if !context.handle_at(place).same(&snapshot.target) {
                        Err(
                            TargetRefusal::PhysicalTargetHandleMismatch {
                                browser_context_id: id,
                                target_id: target,
                            },
                        )
                    } else if context.slot_at(place).page_instance
                        != snapshot.page.residence.instance {
                        Err(
                            TargetRefusal::PhysicalPageResidenceMismatch {
                                browser_context_id: id,
                                target_id: target,
                            },
                        )
                    } else {
                        Ok(context.target_info(place))
                    },
                }
            },
        }
    }
}

/// Lists one Target with the popup it was opened as.
pub open spec fn project_listed_target(
    model: ConnectionModel,
    snapshot: BrowserTargetStateSnapshot,
) -> Result<DevToolsTargetInfo, TargetRefusal> {
    match project_target(model, snapshot) {
        Err(refusal) => Err(refusal),
        Ok(info) => {
            let context = model.context(snapshot.browser_context.browser_context_id@)->Some_0;
            let place = context.target_place(snapshot.target.target_id@)->Some_0;
            Ok(DevToolsTargetInfo { moli_popup_id: context.slot_at(place).popup_id, ..info })
        },
    }
}

/// Lists the Targets from `from` on, behind those listed already.
pub open spec fn project_targets(
    model: ConnectionModel,
    targets: Seq<BrowserTargetStateSnapshot>,
    from: nat,
    listed: Seq<DevToolsTargetInfo>,
) -> Result<Seq<DevToolsTargetInfo>, TargetRefusal>
    decreases targets.len() - from,
{
    if from >= targets.len() {
        Ok(listed)
    } else {
        match project_listed_target(model, targets[from as int]) {
            Err(refusal) => Err(refusal),
            Ok(info) => project_targets(model, targets, from + 1, listed.push(info)),
        }
    }
}

/// Why a context that was seen is not listed.
pub open spec fn context_snapshot_refusal(
    model: ConnectionModel,
    snapshot: BrowserContextTargetSnapshot,
) -> Option<TargetRefusal> {
    let id = snapshot.browser_context.browser_context_id@;
    if !model.context_snapshot_current(snapshot) {
        Some(TargetRefusal::StaleBrowserContextTargetSnapshot(id))
    } else {
        match model.context(id) {
            None => Some(TargetRefusal::PhysicalBrowserContextMissing(id)),
            Some(context) => if !context.handle.same(&snapshot.browser_context) {
                Some(TargetRefusal::PhysicalBrowserContextHandleMismatch(id))
            } else {
                None
            },
        }
    }
}

/// Lists the contexts from `from` on: of each its Targets, then its workers.
pub open spec fn project_contexts(
    model: ConnectionModel,
    contexts: Seq<BrowserContextTargetSnapshot>,
    from: nat,
    listed: Seq<DevToolsTargetInfo>,
) -> Result<Seq<DevToolsTargetInfo>, TargetRefusal>
    decreases contexts.len() - from,
{
    if from >= contexts.len() {
        Ok(listed)
    } else {
        let snapshot = contexts[from as int];
        match project_targets(model, snapshot.targets@, 0, listed) {
            Err(refusal) => Err(refusal),
            Ok(more) => match context_snapshot_refusal(model, snapshot) {
                Some(refusal) => Err(refusal),
                None => {
                    let context = model.context(
                        snapshot.browser_context.browser_context_id@,
                    )->Some_0;
                    project_contexts(
                        model,
                        contexts,
                        from + 1,
                        more + context.worker_infos(),
                    )
                },
            },
        }
    }
}

/// Lists what one Browser Core saw.
pub open spec fn project_snapshot(
    model: ConnectionModel,
    snapshot: BrowserTopLevelTargetSnapshot,
) -> Result<Seq<DevToolsTargetInfo>, TargetRefusal> {
    if snapshot.browser_instance != model.core.browser_instance {
        Err(TargetRefusal::ForeignBrowserTopLevelTargetSnapshot)
    } else {
        project_contexts(model, snapshot.contexts@, 0, Seq::empty())
    }
}

impl BrowserContextProjectionError {
    /// The answer to a frontend.
    pub fn to_devtools_error(&self, core_text: &str) -> (error: DevToolsError)
        ensures
            error.reads(
                DevToolsErrorKind::Internal,
                "BrowserContextProjectionRejected: "@ + self@.message(core_text@),
            ),
    {
        DevToolsError {
            kind: DevToolsErrorKind::Internal,
            message: "BrowserContextProjectionRejected: ".to_owned().concat(
                self.message(core_text).as_str(),
            ),
        }
    }
}

impl TargetProjectionError {
    /// The answer to a frontend.
    pub fn to_devtools_error(&self, core_text: &str) -> (error: DevToolsError)
        ensures
            error.reads(
                DevToolsErrorKind::Internal,
                "TargetProjectionRejected: "@ + self@.message(core_text@),
            ),
    {
        DevToolsError {
            kind: DevToolsErrorKind::Internal,
            message: "TargetProjectionRejected: ".to_owned().concat(
                self.message(core_text).as_str(),
            ),
        }
    }
}

impl SnapshotError {
    /// The answer to a frontend.
    pub fn to_devtools_error(&self, core_text: &str) -> (error: DevToolsError)
        ensures
            match self@ {
                SnapshotRefusal::Contexts(refusal) => error.reads(
                    DevToolsErrorKind::Internal,
                    "BrowserContextProjectionRejected: "@ + refusal.message(core_text@),
                ),
                SnapshotRefusal::Targets(refusal) => error.reads(
                    DevToolsErrorKind::Internal,
                    "TargetProjectionRejected: "@ + refusal.message(core_text@),
                ),
            },
    {
        match self {
            SnapshotError::Contexts(error) => error.to_devtools_error(core_text),
            SnapshotError::Targets(error) => error.to_devtools_error(core_text),
        }
    }
}

impl BrowserContext {
    /// Lists the workers of the context behind `infos`.
    fn push_worker_infos(&self, infos: &mut Vec<DevToolsTargetInfo>)
        ensures
            final(infos)@ == old(infos)@ + self@.worker_infos(),
    {
        let mut index: usize = 0;
        while index < self.worker_targets.len()
            invariant
                index <= self.worker_targets@.len(),
                infos@ == old(infos)@ + self@.worker_infos().take(index as int),
            decreases self.worker_targets@.len() - index,
        {
            infos.push(
                DevToolsTargetInfo {
                    target_id: self.worker_targets[index].target_id.clone(),
                    browser_context_id: self.id.clone(),
                    kind: DevToolsTargetKind::Worker,
                    url: self.worker_targets[index].url.clone(),
                    moli_popup_id: None,
                },
            );
            assert(infos@ =~= old(infos)@ + self@.worker_infos().take(index + 1));
            index = index + 1;
        }
        assert(self@.worker_infos().take(index as int) =~= self@.worker_infos());
    }
}

impl CdpConnection {
    /// Whether what was seen of a context still holds.
    pub fn browser_context_target_snapshot_is_current(
        &self,
        snapshot: &BrowserContextTargetSnapshot,
    ) -> (current: bool)
        ensures
            current == self@.context_snapshot_current(*snapshot),
    {
        self.core.browser_context_handle_is_current(&snapshot.browser_context)
    }

    /// Whether what was seen of a Target still holds.
    pub fn browser_target_state_snapshot_is_current(
        &self,
        snapshot: &BrowserTargetStateSnapshot,
    ) -> (current: bool)
        ensures
            current == self@.target_snapshot_current(*snapshot),
    {
        self.core.browser_context_handle_is_current(&snapshot.browser_context)
            && self.core.target_handle_is_current(&snapshot.target)
            && self.core.page_residence_is_current(
            snapshot.browser_context.browser_context_id.as_str(),
            snapshot.target.target_id.as_str(),
            snapshot.page.residence.instance,
        )
    }

    /// Takes what Browser Core sees, where the slots agree with it.
    pub fn capture_browser_top_level_target_snapshot(
        &self,
        answer: Result<BrowserTopLevelTargetSnapshot, BrowserTargetRegistryError>,
    ) -> (captured: Result<BrowserTopLevelTargetSnapshot, SnapshotError>)
        ensures
            match self@.context_topology_refusal() {
                Some(refusal) => captured matches Err(error) && error@ == SnapshotRefusal::Contexts(
                    refusal,
                ),
                None => match self@.target_topology_refusal() {
                    Some(refusal) => captured matches Err(error) && error@
                        == SnapshotRefusal::Targets(refusal),
                    None => match answer {
                        Ok(snapshot) => captured == Ok::<
                            BrowserTopLevelTargetSnapshot,
                            SnapshotError,
                        >(snapshot),
                        Err(reason) => captured matches Err(error) && error@
                            == SnapshotRefusal::Targets(TargetRefusal::Core(reason@)),
                    },
                },
            },
    {
        match self.validate_browser_context_topology_projection() {
            Ok(()) => {},
            Err(error) => {
                return Err(SnapshotError::Contexts(error));
            },
        }
        match self.validate_browser_target_topology_projection() {
            Ok(()) => {},
            Err(error) => {
                return Err(SnapshotError::Targets(error));
            },
        }
        match answer {
            Ok(snapshot) => Ok(snapshot),
            Err(error) => Err(SnapshotError::Targets(TargetProjectionError::Core(error))),
        }
    }

    /// Lists one Target, with the popup it was opened as beside it.
    fn project_target_with_popup(&self, snapshot: &BrowserTargetStateSnapshot) -> (projected:
        Result<(DevToolsTargetInfo, Option<u64>), TargetProjectionError>)
        ensures
            match projected {
                Ok((info, popup)) => {
                    &&& project_target(self@, *snapshot) == Ok::<
                        DevToolsTargetInfo,
                        TargetRefusal,
                    >(info)
                    &&& project_listed_target(self@, *snapshot) == Ok::<
                        DevToolsTargetInfo,
                        TargetRefusal,
                    >(DevToolsTargetInfo { moli_popup_id: popup, ..info })
                },
                Err(error) => project_target(self@, *snapshot) == Err::<
                    DevToolsTargetInfo,
                    TargetRefusal,
                >(error@),
            },
    {
        let id = snapshot.browser_context.browser_context_id.as_str();
        let target_id = snapshot.target.target_id.as_str();
        if !self.browser_target_state_snapshot_is_current(snapshot) {
            return Err(
                TargetProjectionError::StaleTopLevelTargetSnapshot {
                    browser_context_id: id.to_owned(),
                    target_id: target_id.to_owned(),
                },
            );
        }
        let context = match self.browser_context_by_id(id) {
            Some(context) => context,
            None => {
                return Err(TargetProjectionError::PhysicalBrowserContextMissing(id.to_owned()));
            },
        };
        if !context.handle.is_same(&snapshot.browser_context) {
            return Err(
                TargetProjectionError::PhysicalBrowserContextHandleMismatch(id.to_owned()),
            );
        }
        let (handle, slot) = match context.target_place(target_id) {
            Some(TargetPlace::Active) => match &context.active_target.handle {
                Some(handle) => (handle, &context.active_target.slot),
                None => vstd::pervasive::unreached(),
            },
            Some(TargetPlace::Background(index)) => (
                &context.background_targets[index].handle,
                &context.background_targets[index].slot,
            ),
            None => {
                return Err(
                    TargetProjectionError::PhysicalTargetMissing {
                        browser_context_id: id.to_owned(),
                        target_id: target_id.to_owned(),
                    },
                );
            },
        };
        if !handle.is_same(&snapshot.target) {
            return Err(
                TargetProjectionError::PhysicalTargetHandleMismatch {
                    browser_context_id: id.to_owned(),
                    target_id: target_id.to_owned(),
                },
            );
        }
        if slot.page_instance != snapshot.page.residence.instance {
            return Err(
                TargetProjectionError::PhysicalPageResidenceMismatch {
                    browser_context_id: id.to_owned(),
                    target_id: target_id.to_owned(),
                },
            );
        }
        Ok(
            (
                DevToolsTargetInfo {
                    target_id: handle.target_id.clone(),
                    browser_context_id: context.id.clone(),
                    kind: DevToolsTargetKind::Page,
                    url: slot.target_url.clone(),
                    moli_popup_id: None,
                },
                slot.popup_id,
            ),
        )
    }

    /// Lists one Target, or says why its slot is not the one that was seen.
    pub fn project_top_level_target_snapshot(&self, snapshot: &BrowserTargetStateSnapshot) -> (
        projected: Result<DevToolsTargetInfo, TargetProjectionError>)
        ensures
            match projected {
                Ok(info) => project_target(self@, *snapshot) == Ok::<
                    DevToolsTargetInfo,
                    TargetRefusal,
                >(info),
                Err(error) => project_target(self@, *snapshot) == Err::<
                    DevToolsTargetInfo,
                    TargetRefusal,
                >(error@),
            },
    {
        match self.project_target_with_popup(snapshot) {
            Ok((info, _)) => Ok(info),
            Err(error) => Err(error),
        }
    }

    /// Lists a context's Targets behind `infos`.
    fn push_target_infos(
        &self,
        targets: &Vec<BrowserTargetStateSnapshot>,
        infos: &mut Vec<DevToolsTargetInfo>,
    ) -> (pushed: Result<(), TargetProjectionError>)
        ensures
            match pushed {
                Ok(()) => project_targets(self@, targets@, 0, old(infos)@) == Ok::<
                    Seq<DevToolsTargetInfo>,
                    TargetRefusal,
                >(final(infos)@),
                Err(error) => project_targets(self@, targets@, 0, old(infos)@) == Err::<
                    Seq<DevToolsTargetInfo>,
                    TargetRefusal,
                >(error@),
            },
    {
        let mut index: usize = 0;
        while index < targets.len()
            invariant
                index <= targets@.len(),
                project_targets(self@, targets@, 0, old(infos)@) == project_targets(
                    self@,
                    targets@,
                    index as nat,
                    infos@,
                ),
            decreases targets@.len() - index,
        {
            match self.project_target_with_popup(&targets[index]) {
                Ok((info, popup)) => {
                    let mut info = info;
                    info.moli_popup_id = popup;
                    infos.push(info);
                },
                Err(error) => {
                    return Err(error);
                },
            }
            index = index + 1;
        }
        Ok(())
    }

    /// The context that was seen.
    fn physical_browser_context_for_snapshot(&self, snapshot: &BrowserContextTargetSnapshot) -> (
        found: Result<&BrowserContext, TargetProjectionError>)
        ensures
            match found {
                Ok(context) => {
                    &&& context_snapshot_refusal(self@, *snapshot) is None
                    &&& self@.context(snapshot.browser_context.browser_context_id@) == Some(
                        context@,
                    )
                },
                Err(error) => context_snapshot_refusal(self@, *snapshot) == Some(error@),
            },
    {
        let id = snapshot.browser_context.browser_context_id.as_str();
        if !self.browser_context_target_snapshot_is_current(snapshot) {
            return Err(TargetProjectionError::StaleBrowserContextTargetSnapshot(id.to_owned()));
        }
        match self.browser_context_by_id(id) {
            Some(context) => if context.handle.is_same(&snapshot.browser_context) {
                Ok(context)
            } else {
                Err(TargetProjectionError::PhysicalBrowserContextHandleMismatch(id.to_owned()))
            },
            None => Err(TargetProjectionError::PhysicalBrowserContextMissing(id.to_owned())),
        }
    }

    /// Lists what one Browser Core saw.
    pub fn project_devtools_target_infos_from_browser_snapshot(
        &self,
        snapshot: &BrowserTopLevelTargetSnapshot,
    ) -> (projected: Result<Vec<DevToolsTargetInfo>, TargetProjectionError>)
        ensures
            match projected {
                Ok(infos) => project_snapshot(self@, *snapshot) == Ok::<
                    Seq<DevToolsTargetInfo>,
                    TargetRefusal,
                >(infos@),
                Err(error) => project_snapshot(self@, *snapshot) == Err::<
                    Seq<DevToolsTargetInfo>,
                    TargetRefusal,
                >(error@),
            },
    {
        if snapshot.browser_instance != self.core.browser_instance {
            return Err(TargetProjectionError::ForeignBrowserTopLevelTargetSnapshot);
        }
        let mut infos: Vec<DevToolsTargetInfo> = Vec::new();
        let mut index: usize = 0;
        while index < snapshot.contexts.len()
            invariant
                index <= snapshot.contexts@.len(),
                project_snapshot(self@, *snapshot) == project_contexts(
                    self@,
                    snapshot.contexts@,
                    index as nat,
                    infos@,
                ),
            decreases snapshot.contexts@.len() - index,
        {
            let context_snapshot = &snapshot.contexts[index];
            match self.push_target_infos(&context_snapshot.targets, &mut infos) {
                Ok(()) => {},
                Err(error) => {
                    return Err(error);
                },
            }
            match self.physical_browser_context_for_snapshot(context_snapshot) {
                Ok(context) => {
                    context.push_worker_infos(&mut infos);
                },
                Err(error) => {
                    return Err(error);
                },
            }
            index = index + 1;
        }
        Ok(infos)
    }
}

} // verus!
