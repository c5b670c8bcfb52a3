//! The detectors' common interface, the registry that holds them in order
//! of priority, and the errors of a detection.

use crate::detectors::jetbrains::JetBrainsDetector;
use crate::detectors::terminal::TerminalEditorDetector;
use crate::detectors::vscode::VSCodeDetector;
use crate::evidence::Evidence;
use crate::resolution::{agrees, coherent};
use crate::text::{contains, contains_text, lowercase, starts_with, to_chars};
use crate::types::{DetectionResult, Findings, ProcessInfo, SupportedIDE};
use vstd::prelude::*;

verus! {

/// Why a detection returned no result.
#[derive(Debug)]
pub enum DetectionError {
    /// No process of the editor runs.
    NoProcessFound { ide: String },
    /// Processes of the editor run, but no file could be recovered.
    WindowParseError { message: String },
    /// The processes could not be listed.
    SystemError { message: String },
    /// No detector is registered for the editor.
    UnsupportedIDE { ide: String },
}

/// What a [`DetectionError`] holds.
pub enum DetectionErrorView {
    NoProcessFound { ide: Seq<char> },
    WindowParseError { message: Seq<char> },
    SystemError { message: Seq<char> },
    UnsupportedIDE { ide: Seq<char> },
}

impl DetectionErrorView {
    /// The sentence that reports the error.
    pub open spec fn text(self) -> Seq<char> {
        match self {
            DetectionErrorView::NoProcessFound { ide } => "No "@ + ide + " processes found"@,
            DetectionErrorView::WindowParseError { message } => {
                "Failed to parse window information: "@ + message
            },
            DetectionErrorView::SystemError { message } => "System API error: "@ + message,
            DetectionErrorView::UnsupportedIDE { ide } => "Unsupported IDE: "@ + ide,
        }
    }
}

impl View for DetectionError {
    type V = DetectionErrorView;

    open spec fn view(&self) -> DetectionErrorView {
        match self {
            DetectionError::NoProcessFound { ide } => DetectionErrorView::NoProcessFound {
                ide: ide@,
            },
            DetectionError::WindowParseError { message } => DetectionErrorView::WindowParseError {
                message: message@,
            },
            DetectionError::SystemError { message } => DetectionErrorView::SystemError {
                message: message@,
            },
            DetectionError::UnsupportedIDE { ide } => DetectionErrorView::UnsupportedIDE {
                ide: ide@,
            },
        }
    }
}

impl DetectionError {
    /// The sentence that reports the error.
    pub fn to_string(&self) -> (r: String)
        ensures
            r@ == self@.text(),
    {
        match self {
            DetectionError::NoProcessFound { ide } => {
                let mut r = String::from_str("No ");
                r.append(ide.as_str());
                r.append(" processes found");
                r
            },
            DetectionError::WindowParseError { message } => {
                let mut r = String::from_str("Failed to parse window information: ");
                r.append(message.as_str());
                r
            },
            DetectionError::SystemError { message } => {
                let mut r = String::from_str("System API error: ");
                r.append(message.as_str());
                r
            },
            DetectionError::UnsupportedIDE { ide } => {
                let mut r = String::from_str("Unsupported IDE: ");
                r.append(ide.as_str());
                r
            },
        }
    }
}

/// What a list of known names holds.
pub open spec fn names_view(names: Seq<&'static str>) -> Seq<Seq<char>> {
    names.map_values(|name: &'static str| name@)
}

/// Whether `process` goes by the known name `known`: in lower case, the
/// name of the process begins with it (or equals it), or the path of its
/// executable contains it.
pub open spec fn goes_by(process: ProcessInfo, known: Seq<char>) -> bool {
    ||| lowercase(known).is_prefix_of(lowercase(process.name@))
    ||| contains_text(lowercase(process.executable_path@), lowercase(known))
}

/// Whether `process` goes by one of `names`.
pub open spec fn goes_by_any(process: ProcessInfo, names: Seq<Seq<char>>) -> bool {
    exists|i: int| 0 <= i < names.len() && goes_by(process, names[i])
}

/// Whether `process` goes by one of `names`.
pub fn is_known_process(process: &ProcessInfo, names: &Vec<&'static str>) -> (r: bool)
    ensures
        r == goes_by_any(*process, names_view(names@)),
{
    let name = to_chars(process.name.as_str().to_lowercase().as_str());
    let path = to_chars(process.executable_path.as_str().to_lowercase().as_str());
    let mut i: usize = 0;
    while i < names.len()
        invariant
            i <= names.len(),
            name@ == lowercase(process.name@),
            path@ == lowercase(process.executable_path@),
            forall|k: int| 0 <= k < i ==> !goes_by(*process, names_view(names@)[k]),
        decreases names.len() - i,
    {
        let known = to_chars(names[i].to_lowercase().as_str());
        if starts_with(&name, &known) || contains(&path, &known) {
            assert(goes_by(*process, names_view(names@)[i as int]));
            return true;
        }
        i += 1;
    }
    false
}

/// The strategy for one editor: which processes are its own, and what can
/// be recovered from them.
pub trait IDEDetector {
    /// The editor that the detector is for.
    spec fn editor(&self) -> SupportedIDE;

    /// Whether `process` is a process of the editor.
    spec fn targets(&self, process: ProcessInfo) -> bool;

    /// What the detection returns for `processes` under `evidence`, apart
    /// from the time.
    spec fn outcome(&self, processes: Seq<ProcessInfo>, evidence: Evidence) -> Result<
        Findings,
        DetectionErrorView,
    >;

    /// The editor that the detector is for.
    fn ide_type(&self) -> (r: SupportedIDE)
        ensures
            r == self.editor(),
    ;

    /// Whether `process` is a process of the editor.
    fn is_target_process(&self, process: &ProcessInfo) -> (r: bool)
        ensures
            r == self.targets(*process),
    ;

    /// Recovers the open files of the editor from its processes and from
    /// what was observed for them.
    fn extract_files(&self, processes: &[ProcessInfo], evidence: &Evidence) -> (r: Result<
        DetectionResult,
        DetectionError,
    >)
        ensures
            agrees(r, self.outcome(processes@, *evidence)),
            r matches Ok(result) ==> coherent(result@.findings),
    ;

    /// The name under which the editor is shown.
    fn display_name(&self) -> (r: &'static str)
        ensures
            r@ == self.editor().label(),
    {
        self.ide_type().display_name()
    }
}

/// The processes among `processes` that are the detector's own, in order.
pub open spec fn targeted<D: IDEDetector>(detector: &D, processes: Seq<ProcessInfo>) -> Seq<
    ProcessInfo,
>
    decreases processes.len(),
{
    if processes.len() == 0 {
        processes
    } else if detector.targets(processes.last()) {
        targeted(detector, processes.drop_last()).push(processes.last())
    } else {
        targeted(detector, processes.drop_last())
    }
}

/// The processes among `processes` that are the detector's own, in order.
pub fn target_processes<D: IDEDetector>(detector: &D, processes: &[ProcessInfo]) -> (r: Vec<
    ProcessInfo,
>)
    ensures
        r@ == targeted(detector, processes@),
{
    let mut r: Vec<ProcessInfo> = Vec::new();
    let mut i: usize = 0;
    assert(processes@.take(0) == Seq::<ProcessInfo>::empty());
    while i < processes.len()
        invariant
            i <= processes.len(),
            r@ == targeted(detector, processes@.take(i as int)),
        decreases processes.len() - i,
    {
        assert(processes@.take(i + 1).drop_last() == processes@.take(i as int));
        if detector.is_target_process(&processes[i]) {
            r.push(processes[i].clone());
        }
        i += 1;
    }
    assert(processes@.take(processes.len() as int) == processes@);
    r
}

/// A detector of one of the kinds that this crate has.
pub enum Detector {
    JetBrains(JetBrainsDetector),
    Terminal(TerminalEditorDetector),
    VSCode(VSCodeDetector),
}

impl IDEDetector for Detector {
    open spec fn editor(&self) -> SupportedIDE {
        match self {
            Detector::JetBrains(d) => d.editor(),
            Detector::Terminal(d) => d.editor(),
            Detector::VSCode(d) => d.editor(),
        }
    }

    open spec fn targets(&self, process: ProcessInfo) -> bool {
        match self {
            Detector::JetBrains(d) => d.targets(process),
            Detector::Terminal(d) => d.targets(process),
            Detector::VSCode(d) => d.targets(process),
        }
    }

    open spec fn outcome(&self, processes: Seq<ProcessInfo>, evidence: Evidence) -> Result<
        Findings,
        DetectionErrorView,
    > {
        match self {
            Detector::JetBrains(d) => d.outcome(processes, evidence),
            Detector::Terminal(d) => d.outcome(processes, evidence),
            Detector::VSCode(d) => d.outcome(processes, evidence),
        }
    }

    fn ide_type(&self) -> (r: SupportedIDE) {
        match self {
            Detector::JetBrains(d) => d.ide_type(),
            Detector::Terminal(d) => d.ide_type(),
            Detector::VSCode(d) => d.ide_type(),
        }
    }

    fn is_target_process(&self, process: &ProcessInfo) -> (r: bool) {
        match self {
            Detector::JetBrains(d) => d.is_target_process(process),
            Detector::Terminal(d) => d.is_target_process(process),
            Detector::VSCode(d) => d.is_target_process(process),
        }
    }

    fn extract_files(&self, processes: &[ProcessInfo], evidence: &Evidence) -> (r: Result<
        DetectionResult,
        DetectionError,
    >) {
        match self {
            Detector::JetBrains(d) => d.extract_files(processes, evidence),
            Detector::Terminal(d) => d.extract_files(processes, evidence),
            Detector::VSCode(d) => d.extract_files(processes, evidence),
        }
    }
}

/// What is returned when a detector gave `outcome` and the detectors after
/// it give `later`: its findings if it succeeded, else the findings of a
/// later one, and its failure if there are none.
pub open spec fn settled(
    outcome: Result<Findings, DetectionErrorView>,
    later: Option<Result<Findings, DetectionErrorView>>,
) -> Option<Result<Findings, DetectionErrorView>> {
    match outcome {
        Ok(found) => Some(Ok(found)),
        Err(e) => match later {
            Some(Ok(found)) => Some(Ok(found)),
            _ => Some(Err(e)),
        },
    }
}

/// What is returned when the detectors so far gave the failure `failure`,
/// if any of them had a process, and the detectors to come give `later`.
pub open spec fn settled_after(
    failure: Option<DetectionErrorView>,
    later: Option<Result<Findings, DetectionErrorView>>,
) -> Option<Result<Findings, DetectionErrorView>> {
    match failure {
        Some(e) => settled(Err(e), later),
        None => later,
    }
}

/// The registry: the detectors in the order in which they were registered,
/// which is the order of their priority.
pub struct IDEDetectorManager {
    detectors: Vec<Detector>,
}

impl IDEDetectorManager {
    /// The registered detectors, first registered first.
    pub closed spec fn registered(&self) -> Seq<Detector> {
        self.detectors@
    }

    /// The position of the first detector for `kind` at or after `from`.
    pub open spec fn detector_from(&self, kind: SupportedIDE, from: int) -> Option<int>
        decreases self.registered().len() - from,
    {
        if from < 0 || from >= self.registered().len() {
            None
        } else if self.registered()[from].editor() == kind {
            Some(from)
        } else {
            self.detector_from(kind, from + 1)
        }
    }

    /// What detecting the editor `kind` returns, apart from the time: the
    /// outcome of the first detector registered for `kind` on the processes
    /// that are its own.
    pub open spec fn detection(
        &self,
        kind: SupportedIDE,
        processes: Seq<ProcessInfo>,
        evidence: Evidence,
    ) -> Result<Findings, DetectionErrorView> {
        match self.detector_from(kind, 0) {
            None => Err(DetectionErrorView::UnsupportedIDE { ide: kind.label() }),
            Some(at) => {
                let detector = self.registered()[at];
                let own = targeted(&detector, processes);
                if own.len() == 0 {
                    Err(DetectionErrorView::NoProcessFound { ide: detector.editor().label() })
                } else {
                    detector.outcome(own, evidence)
                }
            },
        }
    }

    /// The position of the first detector at or after `from` that has a
    /// process of its own among `processes`.
    pub open spec fn matching_from(&self, processes: Seq<ProcessInfo>, from: int) -> Option<int>
        decreases self.registered().len() - from,
    {
        if from < 0 || from >= self.registered().len() {
            None
        } else if targeted(&self.registered()[from], processes).len() > 0 {
            Some(from)
        } else {
            self.matching_from(processes, from + 1)
        }
    }

    /// What the detectors at and after position `from` return, apart from
    /// the time: the findings of the first of them that has a process of
    /// its own and succeeds; where none succeeds, the failure of the first
    /// that has a process of its own; and `None` where none has one.
    pub open spec fn auto_detection_from(
        &self,
        processes: Seq<ProcessInfo>,
        evidence: Evidence,
        from: int,
    ) -> Option<Result<Findings, DetectionErrorView>>
        decreases self.registered().len() - from,
    {
        if from < 0 || from >= self.registered().len() {
            None
        } else {
            let detector = self.registered()[from];
            let own = targeted(&detector, processes);
            let later = self.auto_detection_from(processes, evidence, from + 1);
            if own.len() == 0 {
                later
            } else {
                settled(detector.outcome(own, evidence), later)
            }
        }
    }

    /// What detecting any editor returns, apart from the time: the findings
    /// of the first registered detector that has a process of its own and
    /// succeeds. Where those that have a process all fail, it is the
    /// failure of the first of them, and where no detector has a process,
    /// it is `NoProcessFound`.
    pub open spec fn auto_detection(
        &self,
        processes: Seq<ProcessInfo>,
        evidence: Evidence,
    ) -> Result<
        Findings,
        DetectionErrorView,
    > {
        match self.auto_detection_from(processes, evidence, 0) {
            Some(outcome) => outcome,
            None => Err(DetectionErrorView::NoProcessFound { ide: "any supported editor"@ }),
        }
    }

    /// A registry without detectors.
    pub fn new() -> (r: Self)
        ensures
            r.registered().len() == 0,
    {
        Self { detectors: Vec::new() }
    }

    /// Registers `detector` behind those that are registered.
    pub fn register_detector(&mut self, detector: Detector)
        ensures
            final(self).registered() == old(self).registered().push(detector),
    {
        self.detectors.push(detector);
    }

    /// The position of the first detector registered for `kind`.
    pub fn find_detector(&self, kind: SupportedIDE) -> (r: Option<usize>)
        ensures
            match r {
                Some(at) => self.detector_from(kind, 0) == Some(at as int) && at
                    < self.registered().len(),
                None => self.detector_from(kind, 0) is None,
            },
    {
        let mut i: usize = 0;
        while i < self.detectors.len()
            invariant
                i <= self.detectors.len(),
                self.detector_from(kind, 0) == self.detector_from(kind, i as int),
            decreases self.detectors.len() - i,
        {
            if self.detectors[i].ide_type() == kind {
                return Some(i);
            }
            i += 1;
        }
        None
    }

    /// The position of the first registered detector at or after `from`
    /// that has a process of its own among `processes`.
    pub fn find_matching(&self, processes: &[ProcessInfo], from: usize) -> (r: Option<usize>)
        ensures
            match r {
                Some(at) => self.matching_from(processes@, from as int) == Some(at as int) && from
                    <= at < self.registered().len(),
                None => self.matching_from(processes@, from as int) is None,
            },
    {
        let mut i: usize = from;
        while i < self.detectors.len()
            invariant
                from <= i,
                self.matching_from(processes@, from as int) == self.matching_from(
                    processes@,
                    i as int,
                ),
            decreases self.detectors.len() - i,
        {
            let own = target_processes(&self.detectors[i], processes);
            if own.len() > 0 {
                return Some(i);
            }
            i += 1;
        }
        None
    }

    /// The editor of the detector at position `at`.
    pub fn editor_at(&self, at: usize) -> (r: SupportedIDE)
        requires
            at < self.registered().len(),
        ensures
            r == self.registered()[at as int].editor(),
    {
        self.detectors[at].ide_type()
    }

    /// The processes among `processes` that are the own of the detector at
    /// position `at`.
    pub fn targets_at(&self, at: usize, processes: &[ProcessInfo]) -> (r: Vec<ProcessInfo>)
        requires
            at < self.registered().len(),
        ensures
            r@ == targeted(&self.registered()[at as int], processes@),
    {
        target_processes(&self.detectors[at], processes)
    }

    /// Detects the editor `kind` among `processes`. It fails with
    /// `UnsupportedIDE` where no detector is registered for `kind`, with
    /// `NoProcessFound` where none of the processes is the editor's, and
    /// else returns what the detector recovers.
    pub fn detect_ide(
        &self,
        ide_type: SupportedIDE,
        processes: &[ProcessInfo],
        evidence: &Evidence,
    ) -> (r: Result<DetectionResult, DetectionError>)
        ensures
            agrees(r, self.detection(ide_type, processes@, *evidence)),
            r matches Ok(result) ==> coherent(result@.findings),
    {
        match self.find_detector(ide_type) {
            None => Err(
                DetectionError::UnsupportedIDE {
                    ide: String::from_str(ide_type.display_name()),
                },
            ),
            Some(at) => {
                let detector = &self.detectors[at];
                let own = target_processes(detector, processes);
                if own.len() == 0 {
                    return Err(
                        DetectionError::NoProcessFound {
                            ide: String::from_str(detector.display_name()),
                        },
                    );
                }
                detector.extract_files(own.as_slice(), evidence)
            },
        }
    }

    /// Detects whichever editor comes first in the order of registration,
    /// has a process among `processes` and yields files, and returns what
    /// its detector recovers. Where the detectors that have a process all
    /// fail, it fails as the first of them does, and where no detector has
    /// a process, it fails with `NoProcessFound`.
    pub fn auto_detect(&self, processes: &[ProcessInfo], evidence: &Evidence) -> (r: Result<
        DetectionResult,
        DetectionError,
    >)
        ensures
            agrees(r, self.auto_detection(processes@, *evidence)),
            r matches Ok(result) ==> coherent(result@.findings),
    {
        let mut failure: Option<DetectionError> = None;
        let mut i: usize = 0;
        while i < self.detectors.len()
            invariant
                i <= self.detectors.len(),
                self.auto_detection_from(processes@, *evidence, 0) == settled_after(
                    match failure {
                        Some(e) => Some(e@),
                        None => None,
                    },
                    self.auto_detection_from(processes@, *evidence, i as int),
                ),
            decreases self.detectors.len() - i,
        {
            let own = target_processes(&self.detectors[i], processes);
            if own.len() > 0 {
                match self.detectors[i].extract_files(own.as_slice(), evidence) {
                    Ok(found) => {
                        return Ok(found);
                    },
                    Err(e) => {
                        if failure.is_none() {
                            failure = Some(e);
                        }
                    },
                }
            }
            i += 1;
        }
        match failure {
            Some(e) => Err(e),
            None => Err(
                DetectionError::NoProcessFound { ide: String::from_str("any supported editor") },
            ),
        }
    }

    /// The display names of the editors that have a detector, in the order
    /// of registration.
    pub fn list_supported_ides(&self) -> (r: Vec<&'static str>)
        ensures
            r@.len() == self.registered().len(),
            forall|i: int|
                0 <= i < r@.len() ==> (#[trigger] r@[i])@ == self.registered()[i].editor().label(),
    {
        let mut r: Vec<&'static str> = Vec::new();
        let mut i: usize = 0;
        while i < self.detectors.len()
            invariant
                i <= self.detectors.len(),
                r@.len() == i,
                forall|k: int|
                    0 <= k < i ==> (#[trigger] r@[k])@ == self.detectors@[k].editor().label(),
            decreases self.detectors.len() - i,
        {
            r.push(self.detectors[i].display_name());
            i += 1;
        }
        r
    }
}

/// Detection is decided by the order of registration: of two detectors
/// that have a process of their own among `processes`, the one registered
/// first gives the result, if none before it has a process and it
/// succeeds. With the same processes and evidence the result is the same.
pub proof fn lemma_auto_detect_first(
    manager: IDEDetectorManager,
    processes: Seq<ProcessInfo>,
    evidence: Evidence,
    first: int,
    second: int,
)
    requires
        0 <= first < second < manager.registered().len(),
        targeted(&manager.registered()[first], processes).len() > 0,
        targeted(&manager.registered()[second], processes).len() > 0,
        forall|k: int|
            0 <= k < first ==> targeted(&#[trigger] manager.registered()[k], processes).len() == 0,
        manager.registered()[first].outcome(
            targeted(&manager.registered()[first], processes),
            evidence,
        ) is Ok,
    ensures
        manager.matching_from(processes, 0) == Some(first),
        manager.auto_detection(processes, evidence) == manager.registered()[first].outcome(
            targeted(&manager.registered()[first], processes),
            evidence,
        ),
{
    lemma_matching_from(manager, processes, 0, first);
    lemma_auto_detection_from(manager, processes, evidence, 0, first);
}

/// The detectors that have no process of their own have no part in the
/// result.
proof fn lemma_auto_detection_from(
    manager: IDEDetectorManager,
    processes: Seq<ProcessInfo>,
    evidence: Evidence,
    from: int,
    first: int,
)
    requires
        0 <= from <= first < manager.registered().len(),
        forall|k: int|
            from <= k < first ==> targeted(&#[trigger] manager.registered()[k], processes).len()
                == 0,
    ensures
        manager.auto_detection_from(processes, evidence, from) == manager.auto_detection_from(
            processes,
            evidence,
            first,
        ),
    decreases first - from,
{
    if from < first {
        lemma_auto_detection_from(manager, processes, evidence, from + 1, first);
    }
}

/// The search for a matching detector passes over those that have no
/// process of their own.
proof fn lemma_matching_from(
    manager: IDEDetectorManager,
    processes: Seq<ProcessInfo>,
    from: int,
    first: int,
)
    requires
        0 <= from <= first < manager.registered().len(),
        targeted(&manager.registered()[first], processes).len() > 0,
        forall|k: int|
            from <= k < first ==> targeted(&#[trigger] manager.registered()[k], processes).len()
                == 0,
    ensures
        manager.matching_from(processes, from) == Some(first),
    decreases first - from,
{
    if from < first {
        lemma_matching_from(manager, processes, from + 1, first);
    }
}

} // verus!
