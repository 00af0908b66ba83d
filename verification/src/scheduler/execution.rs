//! One command from beginning to end, with all that it waits for.
//!
//! Navigations in flight are drained before the command starts; only then is
//! the Page looked up that it is carried out on. A navigation command then
//! waits for the milestone it names, of the exact Document that it has led to.
use vstd::multiset::Multiset;
use vstd::prelude::*;

use crate::connection::background_output::{BackgroundProtocolEvent, DocumentLifecycleNotice};
use crate::devtools::{DevToolsCommandResult, DevToolsError, DevToolsErrorKind, DevToolsRefusal};
use crate::facts::types::PageResidenceIdentity;
use crate::scheduler::barrier;
use crate::scheduler::barrier::{ForegroundNavigationNetworkBarrier, NetworkBarrier};
use crate::scheduler::commands;
use crate::scheduler::commands::{
    devtools_document_lifecycle_wait_error, devtools_navigation_lifecycle_milestone,
    devtools_navigation_result_loader_id, devtools_navigation_wait, CommandDispatch,
    DevToolsCommand, DevToolsDocumentLifecycleWaitState, DevToolsNavigationWait,
};
use crate::scheduler::dispatch;
use crate::scheduler::output;
use crate::scheduler::output::{
    CdpSchedulerProgressFailure, DevToolsCommandExecution, DevToolsDocumentLifecycleWaitKey,
    DevToolsPageCommandExecution, ProtocolOutputSequence,
};
use crate::scheduler::pending;
use crate::scheduler::progress;
use crate::text;
use crate::text::{copy_owned, opt_as_str};

verus! {

/// What comes next in the course of a command.
#[derive(Clone, Copy, Debug, PartialEq, Eq, Structural)]
pub enum CommandStage {
    /// Navigations in flight are to be drained.
    DrainInflight,
    /// The Page that the command is addressed to is to be looked up.
    CapturePage,
    /// The command is to be carried out.
    Execute,
    /// The Document that the command has led to is to be looked up.
    CaptureKey,
    /// What is ready is to be completed.
    CompleteReady,
    /// The load of the Document is to be waited for.
    DrainLoad,
    CompleteReadyAgain,
    CaptureKeyAgain,
    /// The milestone is to be waited for.
    Observe,
    /// How far the Document is is to be read.
    ReadKeyState,
    /// Whether the Target still exists is to be looked up.
    CheckRoute,
    Done,
}

/// What came of it.
pub enum CommandEvent {
    Drained(Result<ProtocolOutputSequence, CdpSchedulerProgressFailure>),
    Page(Option<PageResidenceIdentity>),
    Executed(DevToolsCommandExecution),
    /// The command took too long.
    TimedOut,
    Key(Option<DevToolsDocumentLifecycleWaitKey>),
    Ready(ProtocolOutputSequence),
    LoadDrained(Result<ProtocolOutputSequence, CdpSchedulerProgressFailure>),
    Observed(Result<ProtocolOutputSequence, CdpSchedulerProgressFailure>),
    KeyState(DevToolsDocumentLifecycleWaitState),
    Route { is_top_level: bool },
}

/// What a wait for a Document looks for, as a value.
pub struct WaitKey {
    pub notice: DocumentLifecycleNotice,
    pub frame_id: Seq<char>,
}

impl View for DevToolsDocumentLifecycleWaitKey {
    type V = WaitKey;

    open spec fn view(&self) -> WaitKey {
        WaitKey { notice: self.notice(), frame_id: self.frame_id@ }
    }
}

/// What a wait looks for, if there is one.
pub open spec fn opt_key(key: Option<DevToolsDocumentLifecycleWaitKey>) -> Option<WaitKey> {
    match key {
        Some(key) => Some(key@),
        None => None,
    }
}

/// The course of a command, as a value.
pub struct CommandModel {
    pub stage: CommandStage,
    pub wait: Option<DevToolsNavigationWait>,
    /// Whether the milestone is held against the Document of a top-level Target.
    pub validates: bool,
    /// The Target that the command names.
    pub target_id: Option<Seq<char>>,
    /// The Page that the command must be carried out on.
    pub expected: Option<PageResidenceIdentity>,
    pub page: Option<PageResidenceIdentity>,
    /// Where the output of the command itself begins.
    pub start: nat,
    pub loader: Option<Seq<char>>,
    pub key: Option<WaitKey>,
    pub barrier: NetworkBarrier,
    pub output: Seq<BackgroundProtocolEvent>,
    pub result: Option<Result<DevToolsCommandResult, DevToolsRefusal>>,
}

/// The error of a command for a Page that was replaced.
pub open spec fn replaced_page() -> DevToolsRefusal {
    DevToolsRefusal {
        kind: DevToolsErrorKind::NoSuchNode,
        message: "DOM reference belongs to a replaced Page"@,
    }
}

/// The error of a navigation whose Target is gone.
pub open spec fn closed_target() -> DevToolsRefusal {
    DevToolsRefusal {
        kind: DevToolsErrorKind::NoSuchTarget,
        message: "Target closed before navigation load"@,
    }
}

/// Whether a Page is another than the one expected.
pub open spec fn is_replaced(
    expected: Option<PageResidenceIdentity>,
    page: Option<PageResidenceIdentity>,
) -> bool {
    match (expected, page) {
        (Some(expected), Some(page)) => !expected.same(&page),
        (Some(_), None) => true,
        (None, _) => false,
    }
}

impl CommandModel {
    /// A command at its beginning.
    pub open spec fn begun(
        command: DevToolsCommand,
        is_top_level: bool,
        target_id: Option<Seq<char>>,
        expected: Option<PageResidenceIdentity>,
    ) -> CommandModel {
        let wait = command.spec_wait();
        CommandModel {
            stage: CommandStage::DrainInflight,
            wait,
            validates: commands::awaited_milestone(wait) is Some && is_top_level,
            target_id,
            expected,
            page: None,
            start: 0,
            loader: None,
            key: None,
            barrier: NetworkBarrier::of(wait),
            output: Seq::empty(),
            result: None,
        }
    }

    /// Whether the command has succeeded so far.
    pub open spec fn is_ok(self) -> bool {
        self.result matches Some(result) && result is Ok
    }

    pub open spec fn at(self, stage: CommandStage) -> CommandModel {
        CommandModel { stage, ..self }
    }

    /// With events that have passed the barrier.
    pub open spec fn gathers(self, events: Seq<BackgroundProtocolEvent>) -> CommandModel {
        let (barrier, leaves) = self.barrier.after(events);
        CommandModel { barrier, output: self.output + leaves, ..self }
    }

    /// With an error for an answer.
    pub open spec fn refused(self, refusal: DevToolsRefusal) -> CommandModel {
        CommandModel { result: Some(Err(refusal)), ..self }
    }

    /// With what progress has brought. A failure becomes the answer.
    pub open spec fn progressed(
        self,
        progress: Result<ProtocolOutputSequence, CdpSchedulerProgressFailure>,
    ) -> CommandModel {
        let gathered = self.gathers(progress::brought(progress));
        match progress::refused(progress) {
            Some(refusal) => gathered.refused(refusal),
            None => gathered,
        }
    }

    /// Whether a Document is to be looked up.
    pub open spec fn looks_up(self) -> bool {
        self.is_ok() && self.validates && self.loader is Some
    }

    /// Where the Document is looked up once more, if it was not found.
    pub open spec fn at_key(self) -> CommandModel {
        if self.looks_up() && self.key is None {
            self.at(CommandStage::CaptureKeyAgain)
        } else {
            self.at_observe()
        }
    }

    /// Where the milestone is waited for, if it was not announced yet.
    pub open spec fn at_observe(self) -> CommandModel {
        match self.key {
            Some(key) => if self.is_ok() && commands::awaited_milestone(self.wait) is Some
                && !output::announced_since(self.output, key.notice, self.start as int) {
                self.at(CommandStage::Observe)
            } else {
                self.at_verdict()
            },
            None => self.at_verdict(),
        }
    }

    /// The frame in which a download would begin.
    pub open spec fn download_frame(self) -> Option<Seq<char>> {
        match self.key {
            Some(key) => Some(key.frame_id),
            None => self.target_id,
        }
    }

    /// Whether the output shows that the navigation has come to something: a
    /// download, or the milestone.
    pub open spec fn is_shown(self) -> bool {
        ||| (self.download_frame() matches Some(frame_id) && output::download_since(
            self.output,
            frame_id,
            self.start as int,
        ))
        ||| (self.key matches Some(key) && output::announced_since(
            self.output,
            key.notice,
            self.start as int,
        ))
    }

    /// Where it is decided whether the navigation has failed.
    pub open spec fn at_verdict(self) -> CommandModel {
        if self.is_ok() && self.validates && !self.is_shown() {
            self.at(
                if self.key is Some {
                    CommandStage::ReadKeyState
                } else {
                    CommandStage::CheckRoute
                },
            )
        } else {
            self.done()
        }
    }

    /// At the end. What was held back leaves.
    pub open spec fn done(self) -> CommandModel {
        CommandModel {
            stage: CommandStage::Done,
            output: self.output + self.barrier.parked,
            barrier: NetworkBarrier { waiting: false, parked: Seq::empty() },
            ..self
        }
    }

    /// After the command was carried out.
    pub open spec fn executed(
        self,
        result: Result<DevToolsCommandResult, DevToolsError>,
        events: Seq<BackgroundProtocolEvent>,
    ) -> CommandModel {
        let after = (CommandModel {
            result: Some(dispatch::result_of(result)),
            loader: commands::result_loader(result),
            ..self
        }).gathers(events);
        after.at(
            if after.looks_up() {
                CommandStage::CaptureKey
            } else {
                CommandStage::CompleteReady
            },
        )
    }

    /// Whether an event is what the stage asks for.
    pub open spec fn accepts(self, event: CommandEvent) -> bool {
        match self.stage {
            CommandStage::DrainInflight => event is Drained,
            CommandStage::CapturePage => event is Page,
            CommandStage::Execute => event is Executed || event is TimedOut,
            CommandStage::CaptureKey => event is Key,
            CommandStage::CompleteReady => event is Ready,
            CommandStage::DrainLoad => event is LoadDrained,
            CommandStage::CompleteReadyAgain => event is Ready,
            CommandStage::CaptureKeyAgain => event is Key,
            CommandStage::Observe => event is Observed,
            CommandStage::ReadKeyState => event is KeyState,
            CommandStage::CheckRoute => event is Route,
            CommandStage::Done => false,
        }
    }

    /// After what was needed. What was not asked for changes nothing.
    pub open spec fn after(self, event: CommandEvent) -> CommandModel {
        if !self.accepts(event) {
            self
        } else {
            match event {
                CommandEvent::Drained(progress) => {
                    let drained = CommandModel {
                        output: self.output + progress::brought(progress),
                        ..self
                    };
                    match progress::refused(progress) {
                        Some(refusal) => drained.refused(refusal).done(),
                        None => drained.at(CommandStage::CapturePage),
                    }
                },
                CommandEvent::Page(page) => {
                    let found = CommandModel { page, start: self.output.len(), ..self };
                    if is_replaced(self.expected, page) {
                        found.refused(replaced_page()).done()
                    } else {
                        found.at(CommandStage::Execute)
                    }
                },
                CommandEvent::Executed(execution) => self.executed(
                    execution.result,
                    execution.protocol_output@,
                ),
                CommandEvent::TimedOut => self.refused(pending::script_timeout()).at(
                    CommandStage::CompleteReady,
                ),
                CommandEvent::Key(key) => {
                    let found = CommandModel { key: opt_key(key), ..self };
                    if self.stage is CaptureKey {
                        found.at(CommandStage::CompleteReady)
                    } else {
                        found.at_observe()
                    }
                },
                CommandEvent::Ready(output) => {
                    let gathered = self.gathers(output@);
                    if self.stage is CompleteReady && self.is_ok() && self.wait == Some(
                        DevToolsNavigationWait::Load,
                    ) {
                        gathered.at(CommandStage::DrainLoad)
                    } else {
                        gathered.at_key()
                    }
                },
                CommandEvent::LoadDrained(progress) => self.progressed(progress).at(
                    CommandStage::CompleteReadyAgain,
                ),
                CommandEvent::Observed(progress) => self.progressed(progress).at_verdict(),
                CommandEvent::KeyState(state) => match commands::wait_refusal(
                    state,
                    self.key->0.notice.milestone,
                ) {
                    Some(refusal) => self.refused(refusal).done(),
                    None => self.done(),
                },
                CommandEvent::Route { is_top_level } => if is_top_level {
                    self.done()
                } else {
                    self.refused(closed_target()).done()
                },
            }
        }
    }

    /// The events that an event of the course brings.
    pub open spec fn brings(event: CommandEvent) -> Seq<BackgroundProtocolEvent> {
        match event {
            CommandEvent::Drained(progress) => progress::brought(progress),
            CommandEvent::Executed(execution) => execution.protocol_output@,
            CommandEvent::Ready(output) => output@,
            CommandEvent::LoadDrained(progress) => progress::brought(progress),
            CommandEvent::Observed(progress) => progress::brought(progress),
            _ => Seq::empty(),
        }
    }

    /// Whether the course is one that a command can take.
    pub open spec fn inv(self) -> bool {
        &&& self.stage is ReadKeyState ==> self.key is Some
        &&& self.result is None <==> (self.stage is DrainInflight || self.stage is CapturePage
            || self.stage is Execute)
        &&& self.validates ==> commands::awaited_milestone(self.wait) is Some
    }
}

/// The course of a command.
pub struct CommandCourse {
    pub stage: CommandStage,
    pub dispatch: CommandDispatch,
    pub wait: Option<DevToolsNavigationWait>,
    pub validates: bool,
    pub target_id: Option<String>,
    pub expected: Option<PageResidenceIdentity>,
    pub page: Option<PageResidenceIdentity>,
    pub start: usize,
    pub loader: Option<String>,
    pub key: Option<DevToolsDocumentLifecycleWaitKey>,
    pub barrier: ForegroundNavigationNetworkBarrier,
    pub output: ProtocolOutputSequence,
    pub result: Option<Result<DevToolsCommandResult, DevToolsError>>,
}

impl View for CommandCourse {
    type V = CommandModel;

    open spec fn view(&self) -> CommandModel {
        CommandModel {
            stage: self.stage,
            wait: self.wait,
            validates: self.validates,
            target_id: text::opt_chars(self.target_id),
            expected: self.expected,
            page: self.page,
            start: self.start as nat,
            loader: text::opt_chars(self.loader),
            key: opt_key(self.key),
            barrier: self.barrier@,
            output: self.output@,
            result: pending::opt_result_of(self.result),
        }
    }
}

impl CommandCourse {
    pub open spec fn wf(&self) -> bool {
        self@.inv()
    }

    /// A command that is about to start. `is_top_level` says whether it is
    /// addressed to a top-level Target.
    pub fn begin(
        command: &DevToolsCommand,
        is_top_level: bool,
        target_id: Option<String>,
        expected_page: Option<PageResidenceIdentity>,
    ) -> (course: CommandCourse)
        ensures
            course.wf(),
            course.dispatch == command.spec_dispatch(),
            course@ == CommandModel::begun(
                *command,
                is_top_level,
                text::opt_chars(target_id),
                expected_page,
            ),
    {
        let wait = devtools_navigation_wait(command);
        CommandCourse {
            stage: CommandStage::DrainInflight,
            dispatch: command.dispatch(),
            wait,
            validates: devtools_navigation_lifecycle_milestone(wait).is_some() && is_top_level,
            target_id,
            expected: expected_page,
            page: None,
            start: 0,
            loader: None,
            key: None,
            barrier: ForegroundNavigationNetworkBarrier::for_navigation_wait(wait),
            output: ProtocolOutputSequence::empty(),
            result: None,
        }
    }

    fn is_ok(&self) -> (is_ok: bool)
        ensures
            is_ok == self@.is_ok(),
    {
        match &self.result {
            Some(Ok(_)) => true,
            _ => false,
        }
    }

    fn gather(&mut self, output: ProtocolOutputSequence)
        ensures
            final(self)@ == old(self)@.gathers(output@),
            final(self).dispatch == old(self).dispatch,
    {
        let routed = self.barrier.route_output(output);
        self.output.append(routed);
    }

    fn progress(&mut self, progress: Result<ProtocolOutputSequence, CdpSchedulerProgressFailure>)
        ensures
            final(self)@ == old(self)@.progressed(progress),
            final(self).dispatch == old(self).dispatch,
    {
        match progress {
            Ok(output) => {
                self.gather(output);
            },
            Err(failure) => {
                let (output, error) = failure.into_parts();
                self.gather(output);
                self.result = Some(Err(error));
            },
        }
    }

    fn looks_up(&self) -> (looks_up: bool)
        ensures
            looks_up == self@.looks_up(),
    {
        self.is_ok() && self.validates && self.loader.is_some()
    }

    fn enter_key(&mut self)
        requires
            old(self)@.result is Some,
            old(self)@.validates ==> commands::awaited_milestone(old(self)@.wait) is Some,
        ensures
            final(self).wf(),
            final(self)@ == old(self)@.at_key(),
            final(self).dispatch == old(self).dispatch,
    {
        if self.looks_up() && self.key.is_none() {
            self.stage = CommandStage::CaptureKeyAgain;
        } else {
            self.enter_observe();
        }
    }

    fn enter_observe(&mut self)
        requires
            old(self)@.result is Some,
            old(self)@.validates ==> commands::awaited_milestone(old(self)@.wait) is Some,
        ensures
            final(self).wf(),
            final(self)@ == old(self)@.at_observe(),
            final(self).dispatch == old(self).dispatch,
    {
        let observes = match &self.key {
            Some(key) => self.is_ok() && devtools_navigation_lifecycle_milestone(
                self.wait,
            ).is_some() && !self.output.contains_document_lifecycle_for_since(key, self.start),
            None => false,
        };
        if observes {
            self.stage = CommandStage::Observe;
        } else {
            self.enter_verdict();
        }
    }

    fn is_shown(&self) -> (is_shown: bool)
        ensures
            is_shown == self@.is_shown(),
    {
        let frame_id: Option<&str> = match &self.key {
            Some(key) => Some(key.frame_id.as_str()),
            None => opt_as_str(&self.target_id),
        };
        let is_download = match frame_id {
            Some(frame_id) => self.output.contains_download_start_for_frame_since(
                frame_id,
                self.start,
            ),
            None => false,
        };
        let is_announced = match &self.key {
            Some(key) => self.output.contains_document_lifecycle_for_since(key, self.start),
            None => false,
        };
        is_download || is_announced
    }

    fn enter_verdict(&mut self)
        requires
            old(self)@.result is Some,
            old(self)@.validates ==> commands::awaited_milestone(old(self)@.wait) is Some,
        ensures
            final(self).wf(),
            final(self)@ == old(self)@.at_verdict(),
            final(self).dispatch == old(self).dispatch,
    {
        if self.is_ok() && self.validates && !self.is_shown() {
            self.stage = if self.key.is_some() {
                CommandStage::ReadKeyState
            } else {
                CommandStage::CheckRoute
            };
        } else {
            self.end();
        }
    }

    fn end(&mut self)
        requires
            old(self)@.result is Some,
            old(self)@.validates ==> commands::awaited_milestone(old(self)@.wait) is Some,
        ensures
            final(self).wf(),
            final(self)@ == old(self)@.done(),
            final(self).dispatch == old(self).dispatch,
    {
        let mut held: Vec<BackgroundProtocolEvent> = Vec::new();
        held.append(&mut self.barrier.pending_subresource_events);
        assert(held@ =~= old(self)@.barrier.parked);
        self.barrier = ForegroundNavigationNetworkBarrier {
            wait_for_document_response_started: false,
            pending_subresource_events: Vec::new(),
        };
        self.output.append(ProtocolOutputSequence::from_background_events(held));
        self.stage = CommandStage::Done;
    }

    fn refuse(&mut self, kind: DevToolsErrorKind, message: &str)
        requires
            old(self)@.validates ==> commands::awaited_milestone(old(self)@.wait) is Some,
        ensures
            final(self).wf(),
            final(self)@ == old(self)@.refused(
                (DevToolsRefusal { kind, message: message@ }),
            ).done(),
            final(self).dispatch == old(self).dispatch,
    {
        self.result = Some(Err(DevToolsError::new(kind, message)));
        self.end();
    }

    fn page_found(&mut self, page: Option<PageResidenceIdentity>)
        requires
            old(self).wf(),
            old(self)@.stage is CapturePage,
        ensures
            final(self).wf(),
            final(self)@ == old(self)@.after(CommandEvent::Page(page)),
            final(self).dispatch == old(self).dispatch,
    {
        let replaced = match (&self.expected, &page) {
            (Some(expected), Some(page)) => !expected.is_same(page),
            (Some(_), None) => true,
            (None, _) => false,
        };
        self.page = page;
        self.start = self.output.len();
        if replaced {
            self.refuse(DevToolsErrorKind::NoSuchNode, "DOM reference belongs to a replaced Page");
        } else {
            self.stage = CommandStage::Execute;
        }
    }

    fn executed(&mut self, execution: DevToolsCommandExecution)
        requires
            old(self).wf(),
            old(self)@.stage is Execute,
        ensures
            final(self).wf(),
            final(self)@ == old(self)@.after(CommandEvent::Executed(execution)),
            final(self).dispatch == old(self).dispatch,
    {
        self.loader = devtools_navigation_result_loader_id(&execution.result);
        self.result = Some(execution.result);
        self.gather(execution.protocol_output);
        self.stage = if self.looks_up() {
            CommandStage::CaptureKey
        } else {
            CommandStage::CompleteReady
        };
    }

    fn key_read(&mut self, state: DevToolsDocumentLifecycleWaitState)
        requires
            old(self).wf(),
            old(self)@.stage is ReadKeyState,
        ensures
            final(self).wf(),
            final(self)@ == old(self)@.after(CommandEvent::KeyState(state)),
            final(self).dispatch == old(self).dispatch,
    {
        let milestone = match &self.key {
            Some(key) => key.milestone,
            None => vstd::pervasive::unreached(),
        };
        if let Some(error) = devtools_document_lifecycle_wait_error(state, milestone) {
            self.result = Some(Err(error));
        }
        self.end();
    }

    /// Goes on with what came of what was needed.
    pub fn advance(&mut self, event: CommandEvent)
        requires
            old(self).wf(),
        ensures
            final(self).wf(),
            final(self)@ == old(self)@.after(event),
            final(self).dispatch == old(self).dispatch,
    {
        match (self.stage, event) {
            (CommandStage::DrainInflight, CommandEvent::Drained(progress)) => {
                match self.output.absorb(progress) {
                    Some(error) => {
                        self.result = Some(Err(error));
                        self.end();
                    },
                    None => {
                        self.stage = CommandStage::CapturePage;
                    },
                }
            },
            (CommandStage::CapturePage, CommandEvent::Page(page)) => {
                self.page_found(page);
            },
            (CommandStage::Execute, CommandEvent::Executed(execution)) => {
                self.executed(execution);
            },
            (CommandStage::Execute, CommandEvent::TimedOut) => {
                self.result = Some(
                    Err(DevToolsError::new(DevToolsErrorKind::Timeout, "script timed out")),
                );
                self.stage = CommandStage::CompleteReady;
            },
            (CommandStage::CaptureKey, CommandEvent::Key(key)) => {
                self.key = key;
                self.stage = CommandStage::CompleteReady;
            },
            (CommandStage::CaptureKeyAgain, CommandEvent::Key(key)) => {
                self.key = key;
                self.enter_observe();
            },
            (CommandStage::CompleteReady, CommandEvent::Ready(output)) => {
                self.gather(output);
                let is_load_wait = match self.wait {
                    Some(DevToolsNavigationWait::Load) => true,
                    _ => false,
                };
                if self.is_ok() && is_load_wait {
                    self.stage = CommandStage::DrainLoad;
                } else {
                    self.enter_key();
                }
            },
            (CommandStage::DrainLoad, CommandEvent::LoadDrained(progress)) => {
                self.progress(progress);
                self.stage = CommandStage::CompleteReadyAgain;
            },
            (CommandStage::CompleteReadyAgain, CommandEvent::Ready(output)) => {
                self.gather(output);
                self.enter_key();
            },
            (CommandStage::Observe, CommandEvent::Observed(progress)) => {
                self.progress(progress);
                self.enter_verdict();
            },
            (CommandStage::ReadKeyState, CommandEvent::KeyState(state)) => {
                self.key_read(state);
            },
            (CommandStage::CheckRoute, CommandEvent::Route { is_top_level }) => {
                if is_top_level {
                    self.end();
                } else {
                    self.refuse(
                        DevToolsErrorKind::NoSuchTarget,
                        "Target closed before navigation load",
                    );
                }
            },
            _ => {},
        }
    }

    /// The loader of the Document that is to be looked up.
    pub fn loader_id(&self) -> (loader_id: Option<String>)
        ensures
            text::opt_chars(loader_id) == self@.loader,
    {
        copy_owned(&self.loader)
    }

    /// What a command that is over came to.
    pub fn finish(self) -> (execution: DevToolsPageCommandExecution)
        requires
            self.wf(),
            self@.stage is Done,
        ensures
            Some(dispatch::result_of(execution.execution.result)) == self@.result,
            execution.execution.protocol_output@ == self@.output,
            execution.page_residence == self@.page,
    {
        match self.result {
            Some(result) => DevToolsPageCommandExecution {
                execution: DevToolsCommandExecution { result, protocol_output: self.output },
                page_residence: self.page,
            },
            None => vstd::pervasive::unreached(),
        }
    }
}

/// A course stays one that a command can take.
pub proof fn law_course_keeps_inv(course: CommandModel, event: CommandEvent)
    requires
        course.inv(),
    ensures
        course.after(event).inv(),
{
}

/// Output that has left is never taken back.
pub proof fn law_course_keeps_output(course: CommandModel, event: CommandEvent)
    ensures
        course.output.is_prefix_of(course.after(event).output),
{
}

impl CommandModel {
    /// What has left and what is held back.
    pub open spec fn all(self) -> Multiset<BackgroundProtocolEvent> {
        self.output.to_multiset().add(self.barrier.parked.to_multiset())
    }
}

proof fn lemma_gathers_all(course: CommandModel, events: Seq<BackgroundProtocolEvent>)
    ensures
        course.gathers(events).all() =~= course.all().add(events.to_multiset()),
{
    broadcast use vstd::seq_lib::group_to_multiset_ensures;

    let (after, leaves) = course.barrier.after(events);
    let left = course.output.to_multiset();
    let kept = after.parked.to_multiset();
    barrier::law_barrier_conserves(course.barrier, events);
    vstd::seq_lib::lemma_multiset_commutative(course.output, leaves);
    assert(left.add(leaves.to_multiset()).add(kept) =~= left.add(leaves.to_multiset().add(kept)));
    assert(left.add(course.barrier.parked.to_multiset().add(events.to_multiset()))
        =~= course.all().add(events.to_multiset()));
}

proof fn lemma_done_keeps_all(course: CommandModel)
    ensures
        course.done().all() =~= course.all(),
        course.at_verdict().all() =~= course.all(),
        course.at_observe().all() =~= course.all(),
        course.at_key().all() =~= course.all(),
{
    broadcast use vstd::seq_lib::group_to_multiset_ensures;

    assert(Seq::<BackgroundProtocolEvent>::empty().to_multiset() =~= Multiset::empty());
    vstd::seq_lib::lemma_multiset_commutative(course.output, course.barrier.parked);
}

/// Nothing is lost or made up in the course of a command: what has left and what
/// is held back is what has come.
pub proof fn law_course_conserves(course: CommandModel, event: CommandEvent)
    requires
        course.accepts(event),
    ensures
        course.after(event).all() =~= course.all().add(CommandModel::brings(event).to_multiset()),
{
    broadcast use vstd::seq_lib::group_to_multiset_ensures;

    let events = CommandModel::brings(event);
    assert(Seq::<BackgroundProtocolEvent>::empty().to_multiset() =~= Multiset::empty());
    lemma_gathers_all(course, events);
    match event {
        CommandEvent::Drained(progress) => {
            let drained = CommandModel { output: course.output + events, ..course };
            vstd::seq_lib::lemma_multiset_commutative(course.output, events);
            assert(drained.all() =~= course.all().add(events.to_multiset()));
            if let Some(refusal) = progress::refused(progress) {
                lemma_done_keeps_all(drained.refused(refusal));
            }
        },
        CommandEvent::Page(page) => {
            lemma_done_keeps_all(
                (CommandModel { page, start: course.output.len(), ..course }).refused(
                    replaced_page(),
                ),
            );
        },
        CommandEvent::Executed(execution) => {
            let answered = CommandModel {
                result: Some(dispatch::result_of(execution.result)),
                loader: commands::result_loader(execution.result),
                ..course
            };
            lemma_gathers_all(answered, events);
        },
        CommandEvent::Key(key) => {
            lemma_done_keeps_all(CommandModel { key: opt_key(key), ..course });
        },
        CommandEvent::Ready(_) => {
            lemma_done_keeps_all(course.gathers(events));
        },
        CommandEvent::Observed(progress) => {
            lemma_done_keeps_all(course.progressed(progress));
        },
        CommandEvent::KeyState(state) => {
            lemma_done_keeps_all(course);
            if let Some(refusal) = commands::wait_refusal(state, course.key->0.notice.milestone) {
                lemma_done_keeps_all(course.refused(refusal));
            }
        },
        CommandEvent::Route { .. } => {
            lemma_done_keeps_all(course);
            lemma_done_keeps_all(course.refused(closed_target()));
        },
        _ => {},
    }
}

/// When the course of a command is over nothing is held back any more.
pub proof fn law_finished_course_holds_nothing(course: CommandModel, event: CommandEvent)
    requires
        course.stage !is Done,
        course.after(event).stage is Done,
    ensures
        course.after(event).barrier.parked == Seq::<BackgroundProtocolEvent>::empty(),
{
}

/// A command is carried out only on the Page that its caller has named.
pub proof fn law_replaced_page_is_refused(
    course: CommandModel,
    page: Option<PageResidenceIdentity>,
)
    requires
        course.stage is CapturePage,
        is_replaced(course.expected, page),
    ensures
        course.after(CommandEvent::Page(page)).stage is Done,
        course.after(CommandEvent::Page(page)).result == Some(
            Err::<DevToolsCommandResult, DevToolsRefusal>(replaced_page()),
        ),
{
}

/// A navigation that is held against the Document of its Target succeeds only
/// with a sign of it: the milestone or a download in the output, a Document that
/// has reached it, or, where no Document is known, a Target that still exists.
pub proof fn law_success_is_shown(course: CommandModel, event: CommandEvent)
    requires
        course.inv(),
        course.validates,
        course.stage !is Done,
        course.after(event).stage is Done,
        course.after(event).is_ok(),
    ensures
        ({
            let after = course.after(event);
            ||| after.is_shown()
            ||| event == CommandEvent::KeyState(DevToolsDocumentLifecycleWaitState::Reached)
            ||| event == (CommandEvent::Route { is_top_level: true })
        }),
{
    let after = course.after(event);
    assert forall|earlier: CommandModel|
        #![trigger earlier.done()]
        earlier.is_shown() implies earlier.done().is_shown() by {
        let done = earlier.done();
        if let Some(frame_id) = earlier.download_frame() {
            if output::download_since(earlier.output, frame_id, earlier.start as int) {
                let at = choose|at: int|
                    earlier.start <= at < earlier.output.len() && output::begins_download(
                        #[trigger] earlier.output[at],
                        frame_id,
                    );
                assert(done.output[at] == earlier.output[at]);
            }
        }
        if let Some(key) = earlier.key {
            if output::announced_since(earlier.output, key.notice, earlier.start as int) {
                let at = choose|at: int|
                    earlier.start <= at < earlier.output.len() && output::announces(
                        #[trigger] earlier.output[at],
                        key.notice,
                    );
                assert(done.output[at] == earlier.output[at]);
            }
        }
    }
}

} // verus!
