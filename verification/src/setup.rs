//! First-time setup: the three components the program needs, their download
//! status, the setup log, and the decisions taken between downloads.
//!
//! The downloads themselves are performed by the caller; each step here takes
//! the outcome of the previous download and says what to do next.
use vstd::prelude::*;
use vstd::string::StringExecFns;

verus! {

/// One of the three components that the first-time setup installs.
#[derive(Clone, Copy, PartialEq, Eq, Structural, Debug)]
pub enum Component {
    Ffmpeg,
    Whisper,
    Model,
}

/// Download status of one component.
#[derive(Clone, Debug)]
pub enum ComponentStatus {
    Pending,
    Downloading,
    Done,
    Error(String),
}

/// Mathematical model of [`ComponentStatus`].
pub enum StatusView {
    Pending,
    Downloading,
    Done,
    Error(Seq<char>),
}

impl View for ComponentStatus {
    type V = StatusView;

    open spec fn view(&self) -> StatusView {
        match self {
            ComponentStatus::Pending => StatusView::Pending,
            ComponentStatus::Downloading => StatusView::Downloading,
            ComponentStatus::Done => StatusView::Done,
            ComponentStatus::Error(e) => StatusView::Error(e@),
        }
    }
}

/// Shared state of the first-time setup: one status per component, the log
/// shown to the user, whether a setup run is under way, and whether
/// everything has been installed.
pub struct SetupState {
    pub ffmpeg: ComponentStatus,
    pub whisper: ComponentStatus,
    pub model: ComponentStatus,
    pub log: Vec<String>,
    pub started: bool,
    pub all_done: bool,
}

/// Mathematical model of [`SetupState`].
pub struct SetupView {
    pub ffmpeg: StatusView,
    pub whisper: StatusView,
    pub model: StatusView,
    pub log: Seq<Seq<char>>,
    pub started: bool,
    pub all_done: bool,
}

impl View for SetupState {
    type V = SetupView;

    open spec fn view(&self) -> SetupView {
        SetupView {
            ffmpeg: self.ffmpeg@,
            whisper: self.whisper@,
            model: self.model@,
            log: self.log@.map_values(|s: String| s@),
            started: self.started,
            all_done: self.all_done,
        }
    }
}

/// What the setup screen offers the user.
#[derive(Clone, Copy, PartialEq, Eq, Structural, Debug)]
pub enum SetupPrompt {
    /// The initial "Download & Install" button.
    Install,
    /// The "Retry Failed" button.
    Retry,
    /// No button: a run is under way.
    Wait,
}

/// Name of the file that holds a component once installed.
pub open spec fn file_name_of(c: Component) -> Seq<char> {
    match c {
        Component::Ffmpeg => "ffmpeg.exe"@,
        Component::Whisper => "whisper-cli.exe"@,
        Component::Model => "ggml-tiny.bin"@,
    }
}

/// Log line written when a component's download begins.
pub open spec fn downloading_message(c: Component) -> Seq<char> {
    match c {
        Component::Ffmpeg => "Downloading ffmpeg (~80 MB)..."@,
        Component::Whisper => "Downloading whisper.cpp (~20 MB)..."@,
        Component::Model => "Downloading Whisper tiny model (~75 MB)..."@,
    }
}

/// Log line written when a component's download succeeds.
pub open spec fn ready_message(c: Component) -> Seq<char> {
    match c {
        Component::Ffmpeg => "✓ ffmpeg.exe ready"@,
        Component::Whisper => "✓ whisper-cli.exe ready"@,
        Component::Model => "✓ ggml-tiny.bin ready"@,
    }
}

/// Start of the log line written when a component's download fails; the
/// error text follows it.
pub open spec fn failed_prefix(c: Component) -> Seq<char> {
    match c {
        Component::Ffmpeg => "✗ ffmpeg failed: "@,
        Component::Whisper => "✗ whisper failed: "@,
        Component::Model => "✗ model failed: "@,
    }
}

/// Log line written when a run ends with every component installed.
pub open spec fn all_done_message() -> Seq<char> {
    "✓ All done! Starting the app..."@
}

/// Log line written when a run ends with some component missing.
pub open spec fn incomplete_message() -> Seq<char> {
    "⚠ Setup incomplete. Click Retry to try again."@
}

/// Log line written when the user retries the failed downloads.
pub open spec fn retry_message() -> Seq<char> {
    "--- Retrying failed downloads ---"@
}

/// The icon shown beside a component in the setup screen.
pub open spec fn icon_of(s: StatusView) -> Seq<char> {
    match s {
        StatusView::Pending => "○"@,
        StatusView::Downloading => "↓"@,
        StatusView::Done => "✓"@,
        StatusView::Error(_) => "✗"@,
    }
}

/// The order in which a setup run visits the components.
pub open spec fn setup_sequence() -> Seq<Component> {
    seq![Component::Ffmpeg, Component::Whisper, Component::Model]
}

/// Whether the setup screen must be shown, given which component files exist.
pub open spec fn spec_needs_setup(ffmpeg_present: bool, whisper_present: bool, model_present: bool) -> bool {
    !ffmpeg_present || !whisper_present || !model_present
}

impl SetupView {
    pub open spec fn status(self, c: Component) -> StatusView {
        match c {
            Component::Ffmpeg => self.ffmpeg,
            Component::Whisper => self.whisper,
            Component::Model => self.model,
        }
    }

    pub open spec fn with_status(self, c: Component, s: StatusView) -> SetupView {
        match c {
            Component::Ffmpeg => SetupView { ffmpeg: s, ..self },
            Component::Whisper => SetupView { whisper: s, ..self },
            Component::Model => SetupView { model: s, ..self },
        }
    }

    pub open spec fn logged(self, line: Seq<char>) -> SetupView {
        SetupView { log: self.log.push(line), ..self }
    }

    /// Well-formedness: setup is only marked complete when every component is.
    pub open spec fn wf(self) -> bool {
        self.all_done ==> self.all_installed()
    }

    pub open spec fn all_installed(self) -> bool {
        &&& self.ffmpeg is Done
        &&& self.whisper is Done
        &&& self.model is Done
    }

    pub open spec fn has_error(self) -> bool {
        ||| self.ffmpeg is Error
        ||| self.whisper is Error
        ||| self.model is Error
    }

    pub open spec fn any_downloading(self) -> bool {
        ||| self.ffmpeg is Downloading
        ||| self.whisper is Downloading
        ||| self.model is Downloading
    }

    /// A run begins.
    pub open spec fn begun(self) -> SetupView {
        SetupView { started: true, ..self }
    }

    /// A component is about to be downloaded, unless it is installed already.
    pub open spec fn started_download(self, c: Component) -> SetupView {
        if self.status(c) is Done {
            self
        } else {
            self.with_status(c, StatusView::Downloading).logged(downloading_message(c))
        }
    }

    /// The outcome of a component's download is recorded.
    pub open spec fn recorded(self, c: Component, outcome: Result<(), Seq<char>>) -> SetupView {
        match outcome {
            Ok(_) => self.with_status(c, StatusView::Done).logged(ready_message(c)),
            Err(e) => self.with_status(c, StatusView::Error(e)).logged(failed_prefix(c) + e),
        }
    }

    /// A run ends.
    pub open spec fn finished(self) -> SetupView {
        if self.all_installed() {
            SetupView { all_done: true, ..self.logged(all_done_message()) }
        } else {
            SetupView { started: false, ..self.logged(incomplete_message()) }
        }
    }

    /// The failed components are set back to pending.
    pub open spec fn retried(self) -> SetupView {
        let reset = |s: StatusView|
            if s is Error {
                StatusView::Pending
            } else {
                s
            };
        SetupView {
            ffmpeg: reset(self.ffmpeg),
            whisper: reset(self.whisper),
            model: reset(self.model),
            ..self.logged(retry_message())
        }
    }

    /// One component's turn in a run: skipped when installed, otherwise
    /// downloaded with the given outcome.
    pub open spec fn attempted(self, c: Component, outcome: Result<(), Seq<char>>) -> SetupView {
        if self.status(c) is Done {
            self
        } else {
            self.started_download(c).recorded(c, outcome)
        }
    }

    /// A whole run, with the outcome each download would have.
    pub open spec fn run(
        self,
        ffmpeg: Result<(), Seq<char>>,
        whisper: Result<(), Seq<char>>,
        model: Result<(), Seq<char>>,
    ) -> SetupView {
        self.begun().attempted(Component::Ffmpeg, ffmpeg).attempted(
            Component::Whisper,
            whisper,
        ).attempted(Component::Model, model).finished()
    }

    /// What the setup screen offers.
    pub open spec fn prompt(self) -> SetupPrompt {
        if !self.started {
            SetupPrompt::Install
        } else if self.has_error() && !self.any_downloading() {
            SetupPrompt::Retry
        } else {
            SetupPrompt::Wait
        }
    }
}

/// The status that a component ends a run with, given the one it had and the
/// outcome of its download.
pub open spec fn status_after_run(before: StatusView, outcome: Result<(), Seq<char>>) -> StatusView {
    if before is Done {
        StatusView::Done
    } else {
        match outcome {
            Ok(_) => StatusView::Done,
            Err(e) => StatusView::Error(e),
        }
    }
}

/// The status changes a single step of a run may make: a pending or failed
/// component starts downloading, a downloading one ends installed or failed,
/// or nothing changes.
pub open spec fn status_step(a: StatusView, b: StatusView) -> bool {
    ||| a == b
    ||| (a is Pending || a is Error) && b is Downloading
    ||| a is Downloading && (b is Done || b is Error)
}

impl SetupView {
    /// The states that a run passes through, one per step: before the run,
    /// after it begins, then for each of ffmpeg, whisper and the model in that
    /// order the state after its download starts and after its outcome is
    /// recorded (unchanged for an installed component), and last the state
    /// after the run ends.
    pub open spec fn run_states(
        self,
        ffmpeg: Result<(), Seq<char>>,
        whisper: Result<(), Seq<char>>,
        model: Result<(), Seq<char>>,
    ) -> Seq<SetupView> {
        let s0 = self.begun();
        let s1 = s0.started_download(Component::Ffmpeg);
        let s2 = s0.attempted(Component::Ffmpeg, ffmpeg);
        let s3 = s2.started_download(Component::Whisper);
        let s4 = s2.attempted(Component::Whisper, whisper);
        let s5 = s4.started_download(Component::Model);
        let s6 = s4.attempted(Component::Model, model);
        seq![self, s0, s1, s2, s3, s4, s5, s6, s6.finished()]
    }
}

impl Component {
    /// Name of the file that holds this component once installed.
    pub fn file_name(self) -> (r: &'static str)
        ensures
            r@ == file_name_of(self),
    {
        match self {
            Component::Ffmpeg => "ffmpeg.exe",
            Component::Whisper => "whisper-cli.exe",
            Component::Model => "ggml-tiny.bin",
        }
    }

    fn downloading_line(self) -> (r: String)
        ensures
            r@ == downloading_message(self),
    {
        match self {
            Component::Ffmpeg => String::from_str("Downloading ffmpeg (~80 MB)..."),
            Component::Whisper => String::from_str("Downloading whisper.cpp (~20 MB)..."),
            Component::Model => String::from_str("Downloading Whisper tiny model (~75 MB)..."),
        }
    }

    fn ready_line(self) -> (r: String)
        ensures
            r@ == ready_message(self),
    {
        match self {
            Component::Ffmpeg => String::from_str("✓ ffmpeg.exe ready"),
            Component::Whisper => String::from_str("✓ whisper-cli.exe ready"),
            Component::Model => String::from_str("✓ ggml-tiny.bin ready"),
        }
    }

    fn failed_line(self, e: &str) -> (r: String)
        ensures
            r@ == failed_prefix(self) + e@,
    {
        let mut line = match self {
            Component::Ffmpeg => String::from_str("✗ ffmpeg failed: "),
            Component::Whisper => String::from_str("✗ whisper failed: "),
            Component::Model => String::from_str("✗ model failed: "),
        };
        line.append(e);
        line
    }
}

/// The order in which a setup run visits the components.
pub fn setup_order() -> (r: Vec<Component>)
    ensures
        r@ == setup_sequence(),
{
    let r = vec![Component::Ffmpeg, Component::Whisper, Component::Model];
    assert(r@ =~= setup_sequence());
    r
}

/// Whether the setup screen must be shown, given which component files exist.
pub fn needs_setup(ffmpeg_present: bool, whisper_present: bool, model_present: bool) -> (r: bool)
    ensures
        r == spec_needs_setup(ffmpeg_present, whisper_present, model_present),
{
    !ffmpeg_present || !whisper_present || !model_present
}

/// Whether the setup screen is still shown: it was needed and the setup has
/// not completed since.
pub fn setup_screen_needed(needs_setup: bool, all_done: bool) -> (r: bool)
    ensures
        r == (needs_setup && !all_done),
{
    needs_setup && !all_done
}

impl ComponentStatus {
    /// The icon shown beside a component in the setup screen.
    pub fn icon(&self) -> (r: &'static str)
        ensures
            r@ == icon_of(self@),
    {
        match self {
            ComponentStatus::Pending => "○",
            ComponentStatus::Downloading => "↓",
            ComponentStatus::Done => "✓",
            ComponentStatus::Error(_) => "✗",
        }
    }

    pub fn is_done(&self) -> (r: bool)
        ensures
            r == (self@ is Done),
    {
        match self {
            ComponentStatus::Done => true,
            _ => false,
        }
    }

    pub fn is_error(&self) -> (r: bool)
        ensures
            r == (self@ is Error),
    {
        match self {
            ComponentStatus::Error(_) => true,
            _ => false,
        }
    }

    pub fn is_downloading(&self) -> (r: bool)
        ensures
            r == (self@ is Downloading),
    {
        match self {
            ComponentStatus::Downloading => true,
            _ => false,
        }
    }
}

impl SetupState {
    /// A fresh state: nothing installed, nothing logged, no run under way.
    pub fn new() -> (r: SetupState)
        ensures
            r@.ffmpeg is Pending,
            r@.whisper is Pending,
            r@.model is Pending,
            r@.log == Seq::<Seq<char>>::empty(),
            !r@.started,
            !r@.all_done,
            r@.wf(),
    {
        let r = SetupState {
            ffmpeg: ComponentStatus::Pending,
            whisper: ComponentStatus::Pending,
            model: ComponentStatus::Pending,
            log: Vec::new(),
            started: false,
            all_done: false,
        };
        assert(r@.log =~= Seq::<Seq<char>>::empty());
        r
    }

    /// The state at program start: the components whose files are present
    /// are installed, the others pending.
    pub fn with_installed(ffmpeg_present: bool, whisper_present: bool, model_present: bool) -> (r:
        SetupState)
        ensures
            r@.ffmpeg == (if ffmpeg_present {
                StatusView::Done
            } else {
                StatusView::Pending
            }),
            r@.whisper == (if whisper_present {
                StatusView::Done
            } else {
                StatusView::Pending
            }),
            r@.model == (if model_present {
                StatusView::Done
            } else {
                StatusView::Pending
            }),
            r@.log == Seq::<Seq<char>>::empty(),
            !r@.started,
            !r@.all_done,
            r@.wf(),
    {
        let mut s = SetupState::new();
        if ffmpeg_present {
            s.ffmpeg = ComponentStatus::Done;
        }
        if whisper_present {
            s.whisper = ComponentStatus::Done;
        }
        if model_present {
            s.model = ComponentStatus::Done;
        }
        s
    }

    /// The status of one component.
    pub fn status(&self, c: Component) -> (r: &ComponentStatus)
        ensures
            r@ == self@.status(c),
    {
        match c {
            Component::Ffmpeg => &self.ffmpeg,
            Component::Whisper => &self.whisper,
            Component::Model => &self.model,
        }
    }

    fn set_status(&mut self, c: Component, s: ComponentStatus)
        ensures
            final(self)@ == old(self)@.with_status(c, s@),
    {
        match c {
            Component::Ffmpeg => {
                self.ffmpeg = s;
            },
            Component::Whisper => {
                self.whisper = s;
            },
            Component::Model => {
                self.model = s;
            },
        }
    }

    fn push_log(&mut self, line: String)
        ensures
            final(self)@ == old(self)@.logged(line@),
    {
        let ghost before = self.log@;
        self.log.push(line);
        assert(self.log@.map_values(|s: String| s@) =~= before.map_values(|s: String| s@).push(
            line@,
        ));
    }

    /// True when every component is installed.
    pub fn all_installed(&self) -> (r: bool)
        ensures
            r == self@.all_installed(),
    {
        self.ffmpeg.is_done() && self.whisper.is_done() && self.model.is_done()
    }

    /// True when some component's download failed.
    pub fn has_error(&self) -> (r: bool)
        ensures
            r == self@.has_error(),
    {
        self.ffmpeg.is_error() || self.whisper.is_error() || self.model.is_error()
    }

    /// True when some component is being downloaded.
    pub fn any_downloading(&self) -> (r: bool)
        ensures
            r == self@.any_downloading(),
    {
        self.ffmpeg.is_downloading() || self.whisper.is_downloading()
            || self.model.is_downloading()
    }

    /// What the setup screen offers: the install button before a run, the
    /// retry button when a run stopped on a failure, nothing otherwise.
    pub fn prompt(&self) -> (r: SetupPrompt)
        ensures
            r == self@.prompt(),
    {
        if !self.started {
            SetupPrompt::Install
        } else if self.has_error() && !self.any_downloading() {
            SetupPrompt::Retry
        } else {
            SetupPrompt::Wait
        }
    }

    /// A setup run begins.
    pub fn begin(&mut self)
        requires
            old(self)@.wf(),
        ensures
            final(self)@ == old(self)@.begun(),
            final(self)@.wf(),
    {
        self.started = true;
    }

    /// Prepares the download of a component: returns `false`, changing
    /// nothing, when it is installed already; otherwise marks it as being
    /// downloaded, logs that, and returns `true`.
    pub fn start_download(&mut self, c: Component) -> (r: bool)
        requires
            old(self)@.wf(),
        ensures
            r == !(old(self)@.status(c) is Done),
            final(self)@ == old(self)@.started_download(c),
            final(self)@.wf(),
    {
        if self.status(c).is_done() {
            false
        } else {
            self.set_status(c, ComponentStatus::Downloading);
            let line = c.downloading_line();
            self.push_log(line);
            true
        }
    }

    /// Records the outcome of a component's download: installed on success,
    /// failed with the error text otherwise, with a log line either way.
    pub fn record_download(&mut self, c: Component, outcome: Result<(), String>)
        requires
            old(self)@.wf(),
            old(self)@.status(c) is Downloading,
        ensures
            final(self)@ == old(self)@.recorded(
                c,
                match outcome {
                    Ok(_) => Ok(()),
                    Err(e) => Err(e@),
                },
            ),
            final(self)@.wf(),
    {
        match outcome {
            Ok(_) => {
                self.set_status(c, ComponentStatus::Done);
                let line = c.ready_line();
                self.push_log(line);
            },
            Err(e) => {
                let line = c.failed_line(e.as_str());
                self.set_status(c, ComponentStatus::Error(e));
                self.push_log(line);
            },
        }
    }

    /// Ends a setup run: marks the setup complete when every component is
    /// installed; otherwise ends the run so that it can be started again.
    pub fn finish(&mut self)
        requires
            old(self)@.wf(),
        ensures
            final(self)@ == old(self)@.finished(),
            final(self)@.wf(),
    {
        if self.all_installed() {
            self.push_log(String::from_str("✓ All done! Starting the app..."));
            self.all_done = true;
        } else {
            self.push_log(String::from_str("⚠ Setup incomplete. Click Retry to try again."));
            self.started = false;
        }
    }

    /// Sets every failed component back to pending and logs the retry.
    pub fn retry_failed(&mut self)
        requires
            old(self)@.wf(),
        ensures
            final(self)@ == old(self)@.retried(),
            final(self)@.wf(),
    {
        if self.ffmpeg.is_error() {
            self.ffmpeg = ComponentStatus::Pending;
        }
        if self.whisper.is_error() {
            self.whisper = ComponentStatus::Pending;
        }
        if self.model.is_error() {
            self.model = ComponentStatus::Pending;
        }
        self.push_log(String::from_str("--- Retrying failed downloads ---"));
    }
}

/// A setup run leaves each component installed when it was installed before
/// or its download succeeded, and failed with the download's error text
/// otherwise; the setup is complete after the run exactly when all three are
/// installed, and a run that does not complete ends so that the install
/// button is offered again. Lines are only ever added to the log.
pub proof fn law_run_outcome(
    v: SetupView,
    ffmpeg: Result<(), Seq<char>>,
    whisper: Result<(), Seq<char>>,
    model: Result<(), Seq<char>>,
)
    requires
        v.wf(),
    ensures
        ({
            let after = v.run(ffmpeg, whisper, model);
            &&& after.ffmpeg == status_after_run(v.ffmpeg, ffmpeg)
            &&& after.whisper == status_after_run(v.whisper, whisper)
            &&& after.model == status_after_run(v.model, model)
            &&& after.all_done <==> (status_after_run(v.ffmpeg, ffmpeg) is Done && status_after_run(
                v.whisper,
                whisper,
            ) is Done && status_after_run(v.model, model) is Done)
            &&& after.wf()
            &&& !after.all_done ==> !after.started && after.prompt() == SetupPrompt::Install
            &&& v.log.len() < after.log.len()
            &&& after.log.take(v.log.len() as int) == v.log
        }),
{
    let a = v.begun();
    let b = a.attempted(Component::Ffmpeg, ffmpeg);
    let c = b.attempted(Component::Whisper, whisper);
    let d = c.attempted(Component::Model, model);
    let after = d.finished();
    assert(b.log.take(v.log.len() as int) =~= v.log);
    assert(c.log.take(v.log.len() as int) =~= v.log);
    assert(d.log.take(v.log.len() as int) =~= v.log);
    assert(after.log.take(v.log.len() as int) =~= v.log);
}

/// When every download succeeds, a setup run completes the setup.
pub proof fn law_successful_run_completes(v: SetupView)
    requires
        v.wf(),
    ensures
        v.run(Ok(()), Ok(()), Ok(())).all_done,
        v.run(Ok(()), Ok(()), Ok(())).all_installed(),
{
    law_run_outcome(v, Ok(()), Ok(()), Ok(()));
}

/// A component that is installed already is never downloaded again: the
/// step that would start its download changes nothing.
pub proof fn law_installed_component_skipped(v: SetupView, c: Component)
    requires
        v.status(c) is Done,
    ensures
        v.started_download(c) == v,
        v.attempted(c, Err(Seq::empty())) == v,
{
}

/// Retrying sets every failed component back to pending, keeps every other
/// status, clears the error state, and adds one line to the log.
pub proof fn law_retry_resets_failures(v: SetupView, c: Component)
    requires
        v.wf(),
    ensures
        v.retried().wf(),
        !v.retried().has_error(),
        v.status(c) is Error ==> v.retried().status(c) is Pending,
        !(v.status(c) is Error) ==> v.retried().status(c) == v.status(c),
        v.retried().log == v.log.push(retry_message()),
        v.retried().started == v.started,
        v.retried().all_done == v.all_done,
{
}

/// Once the setup is complete it stays complete: no step of a run, and no
/// retry, takes that back, and a new run downloads nothing.
pub proof fn law_complete_setup_stays_complete(
    v: SetupView,
    c: Component,
    ffmpeg: Result<(), Seq<char>>,
    whisper: Result<(), Seq<char>>,
    model: Result<(), Seq<char>>,
)
    requires
        v.wf(),
        v.all_done,
    ensures
        v.begun().all_done,
        v.started_download(c) == v,
        v.finished().all_done,
        v.retried().all_done,
        v.run(ffmpeg, whisper, model).all_done,
        v.run(ffmpeg, whisper, model).all_installed(),
{
    law_run_outcome(v, ffmpeg, whisper, model);
}

/// Over a whole setup run that starts with nothing downloading: each step
/// moves a status only from pending or failed to downloading, or from
/// downloading to installed or failed; an installed component stays
/// installed to the end; at most one component is downloading at any time;
/// and ffmpeg downloads first, whisper second and the model last, each
/// download ending before the next begins.
pub proof fn law_run_steps(
    v: SetupView,
    ffmpeg: Result<(), Seq<char>>,
    whisper: Result<(), Seq<char>>,
    model: Result<(), Seq<char>>,
)
    requires
        v.wf(),
        !v.any_downloading(),
    ensures
        ({
            let st = v.run_states(ffmpeg, whisper, model);
            &&& st.len() == 9
            &&& st[0] == v
            &&& st[8] == v.run(ffmpeg, whisper, model)
            &&& st[1] == st[0].begun()
            &&& st[2] == st[1].started_download(Component::Ffmpeg)
            &&& st[3] == if st[1].ffmpeg is Done {
                st[2]
            } else {
                st[2].recorded(Component::Ffmpeg, ffmpeg)
            }
            &&& st[4] == st[3].started_download(Component::Whisper)
            &&& st[5] == if st[3].whisper is Done {
                st[4]
            } else {
                st[4].recorded(Component::Whisper, whisper)
            }
            &&& st[6] == st[5].started_download(Component::Model)
            &&& st[7] == if st[5].model is Done {
                st[6]
            } else {
                st[6].recorded(Component::Model, model)
            }
            &&& st[8] == st[7].finished()
            &&& forall|i: int, c: Component|
                0 <= i < 8 ==> status_step(#[trigger] st[i].status(c), st[i + 1].status(c))
            &&& forall|i: int, j: int, c: Component|
                0 <= i <= j < 9 && (#[trigger] st[i].status(c)) is Done ==> (
                #[trigger] st[j].status(c)) is Done
            &&& forall|i: int, c: Component, d: Component|
                0 <= i < 9 && (#[trigger] st[i].status(c)) is Downloading && (
                #[trigger] st[i].status(d)) is Downloading ==> c == d
            &&& forall|i: int| 0 <= i < 9 && (#[trigger] st[i]).ffmpeg is Downloading ==> i == 2
            &&& forall|i: int| 0 <= i < 9 && (#[trigger] st[i]).whisper is Downloading ==> i == 4
            &&& forall|i: int| 0 <= i < 9 && (#[trigger] st[i]).model is Downloading ==> i == 6
        }),
{
    let st = v.run_states(ffmpeg, whisper, model);
    assert(st[8] == v.run(ffmpeg, whisper, model));
    assert forall|i: int, c: Component| 0 <= i < 8 implies status_step(
        #[trigger] st[i].status(c),
        st[i + 1].status(c),
    ) by {
        assert(0 <= i < 8);
    }
    assert forall|i: int, j: int, c: Component|
        0 <= i <= j < 9 && (#[trigger] st[i].status(c)) is Done implies (
        #[trigger] st[j].status(c)) is Done by {
        lemma_done_persists(st, i, j, c);
    }
}

/// Within a sequence of states in which every step is a `status_step`, an
/// installed component stays installed.
proof fn lemma_done_persists(st: Seq<SetupView>, i: int, j: int, c: Component)
    requires
        0 <= i <= j < st.len(),
        st[i].status(c) is Done,
        forall|k: int, d: Component|
            0 <= k < st.len() - 1 ==> status_step(#[trigger] st[k].status(d), st[k + 1].status(d)),
    ensures
        st[j].status(c) is Done,
    decreases j - i,
{
    if i < j {
        assert(status_step(st[i].status(c), st[i + 1].status(c)));
        lemma_done_persists(st, i + 1, j, c);
    }
}

/// The setup screen offers the install button exactly when no run is under
/// way; during a run it offers the retry button exactly when some component
/// failed and none is downloading, so never while a download is in progress,
/// and otherwise it offers nothing.
pub proof fn law_prompt(v: SetupView)
    ensures
        v.prompt() == SetupPrompt::Install <==> !v.started,
        v.prompt() == SetupPrompt::Retry <==> (v.started && (v.ffmpeg is Error || v.whisper is Error
            || v.model is Error) && !(v.ffmpeg is Downloading) && !(v.whisper is Downloading)
            && !(v.model is Downloading)),
        v.started && (v.ffmpeg is Downloading || v.whisper is Downloading || v.model is Downloading)
            ==> v.prompt() == SetupPrompt::Wait,
        v.started && !(v.ffmpeg is Error) && !(v.whisper is Error) && !(v.model is Error)
            ==> v.prompt() == SetupPrompt::Wait,
{
}

/// The setup screen is needed at start exactly when some component file is
/// missing: a missing ffmpeg, whisper-cli or model file each makes it needed,
/// and with all three present it is not. It agrees with the start state:
/// needed exactly when that state has some component not installed.
pub proof fn law_needs_setup(ffmpeg_present: bool, whisper_present: bool, model_present: bool)
    ensures
        !ffmpeg_present ==> spec_needs_setup(ffmpeg_present, whisper_present, model_present),
        !whisper_present ==> spec_needs_setup(ffmpeg_present, whisper_present, model_present),
        !model_present ==> spec_needs_setup(ffmpeg_present, whisper_present, model_present),
        ffmpeg_present && whisper_present && model_present ==> !spec_needs_setup(
            ffmpeg_present,
            whisper_present,
            model_present,
        ),
{
}

} // verus!
