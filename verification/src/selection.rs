//! Which entropy source a build hands out on a host.
//!
//! A build considers some kinds of source and a host reports some of them as
//! available. Selection goes through the kinds in one fixed order of
//! preference and settles on the first that is both considered and available.
//! When there is none it fails: it never falls back to anything weaker.
//!
//! Asking a source is the caller's business, so selection is given in steps:
//! [`BuildProfile::first_step`] and [`BuildProfile::next_step`] say what to ask
//! next and when to stop, and a source behind the one settled on is never
//! asked. [`select`] takes the same steps for a caller that holds every answer
//! already.

use crate::custom_seeder::CustomSeeder;
use crate::seed::Seeder;
use vstd::prelude::*;

verus! {

/// Said when a build that could have had more sources enabled finds none.
pub const ENABLE_SOURCE_MESSAGE: &'static str =
    "Unable to instantiate a seeder, make sure to enable a seeder feature like seeder_unix for example on unix platforms.";

/// Said when a build whose callers cannot add sources finds none.
pub const NO_COMPATIBLE_SOURCE_MESSAGE: &'static str =
    "No compatible seeder for current machine found.";

/// Said when a build for the restricted runtime finds its host without random numbers.
pub const NO_COMPATIBLE_HOST_MESSAGE: &'static str =
    "No compatible seeder found. Consider changing browser or dev environment";

/// The kinds of entropy source, in the order of preference.
#[derive(Debug, Clone, Copy, PartialEq, Eq, Structural)]
pub enum SourceKind {
    /// Derives its seeds from a context string; needs nothing of the host.
    DeterministicContext,
    /// An instruction of the processor.
    HardwareInstruction,
    /// The secure enclave service of the operating system.
    SecureEnclaveService,
    /// The random device file of a Unix system.
    UnixDeviceFile,
    /// The random numbers that a browser or another host runtime provides.
    HostProvidedRandom,
}

/// Why selection handed out no source.
#[derive(Debug, Clone, Copy, PartialEq, Eq, Structural)]
pub enum NoCapabilityAvailable {
    /// No source that the build considers is available; enabling a fallback
    /// source in the build may help.
    EnableFallbackSource,
    /// No source that the build considers is available, and the caller is in
    /// no position to enable another.
    NoCompatibleSource,
    /// The host of a restricted runtime provides no random numbers.
    NoCompatibleHost,
}

/// What selection does next.
#[derive(Debug, Clone, Copy, PartialEq, Eq, Structural)]
pub enum Step {
    /// Ask the source of this kind whether it can be used now, and come back
    /// with its answer.
    Probe(SourceKind),
    /// Hand out the source of this kind. Selection is over.
    Issue(SourceKind),
    /// Hand out nothing. Selection is over.
    Fail(NoCapabilityAvailable),
}

/// The sources that a build was made with.
#[derive(Debug, Clone, Copy, PartialEq, Eq, Structural)]
pub struct BuildProfile {
    /// The build is for the restricted runtime, where only the host's own
    /// random numbers mean anything.
    pub restricted_runtime: bool,
    /// The deterministic context seeder is enabled.
    pub deterministic_context: bool,
    /// The processor's instruction is enabled.
    pub hardware_instruction: bool,
    /// The build runs on the operating system that has the secure enclave
    /// service. The service needs no enabling: every build for that system
    /// considers it.
    pub secure_enclave_service: bool,
    /// The Unix device file is enabled.
    pub unix_device_file: bool,
    /// The build serves callers that cannot enable sources themselves.
    pub foreign_interface: bool,
}

/// What the sources outside this library answered when asked whether they can
/// be used on this host now.
#[derive(Debug, Clone, Copy, PartialEq, Eq, Structural)]
pub struct HostReport {
    /// The processor has the instruction.
    pub hardware_instruction: bool,
    /// The operating system offers the secure enclave service.
    pub secure_enclave_service: bool,
    /// The random device file can be used.
    pub unix_device_file: bool,
    /// The host runtime provides random numbers.
    pub host_provided_random: bool,
}

/// A source that selection has handed out. The deterministic one carries its
/// seeder; the others name a mechanism of the host, which the caller holds.
#[derive(Debug)]
pub enum Capability {
    /// A seeder with the context that the registry held when it was handed out.
    DeterministicContext(CustomSeeder),
    /// The instruction of the processor.
    HardwareInstruction,
    /// The secure enclave service of the operating system.
    SecureEnclaveService,
    /// The random device file.
    UnixDeviceFile,
    /// The random numbers of the host runtime.
    HostProvidedRandom,
}

/// The kinds from the most preferred to the least.
pub open spec fn priority_order() -> Seq<SourceKind> {
    seq![
        SourceKind::DeterministicContext,
        SourceKind::HardwareInstruction,
        SourceKind::SecureEnclaveService,
        SourceKind::UnixDeviceFile,
        SourceKind::HostProvidedRandom,
    ]
}

/// `kind` can be handed out: the build considers it and the host has it.
pub open spec fn usable(profile: BuildProfile, host: HostReport, kind: SourceKind) -> bool {
    profile.considers(kind) && host.reports(kind)
}

/// `kind` is what selection settles on: it is usable, and no usable kind is
/// preferred to it.
pub open spec fn is_choice(profile: BuildProfile, host: HostReport, kind: SourceKind) -> bool {
    &&& usable(profile, host, kind)
    &&& forall|other: SourceKind| #[trigger]
        usable(profile, host, other) ==> kind.rank() <= other.rank()
}

/// No kind can be handed out.
pub open spec fn exhausted(profile: BuildProfile, host: HostReport) -> bool {
    forall|kind: SourceKind| !#[trigger] usable(profile, host, kind)
}

impl SourceKind {
    /// The place of a kind in the order of preference, the most preferred at 0.
    pub open spec fn rank(self) -> nat {
        match self {
            SourceKind::DeterministicContext => 0,
            SourceKind::HardwareInstruction => 1,
            SourceKind::SecureEnclaveService => 2,
            SourceKind::UnixDeviceFile => 3,
            SourceKind::HostProvidedRandom => 4,
        }
    }

    /// The place of a kind in the order of preference, the most preferred at 0.
    pub fn priority(self) -> (place: usize)
        ensures
            place == self.rank(),
    {
        match self {
            SourceKind::DeterministicContext => 0,
            SourceKind::HardwareInstruction => 1,
            SourceKind::SecureEnclaveService => 2,
            SourceKind::UnixDeviceFile => 3,
            SourceKind::HostProvidedRandom => 4,
        }
    }

    /// The kinds from the most preferred to the least.
    pub fn in_priority_order() -> (order: [SourceKind; 5])
        ensures
            order@ == priority_order(),
    {
        let order = [
            SourceKind::DeterministicContext,
            SourceKind::HardwareInstruction,
            SourceKind::SecureEnclaveService,
            SourceKind::UnixDeviceFile,
            SourceKind::HostProvidedRandom,
        ];
        assert(order@ =~= priority_order());
        order
    }
}

impl NoCapabilityAvailable {
    /// What is said to the operator on this failure.
    pub open spec fn text(self) -> Seq<char> {
        match self {
            NoCapabilityAvailable::EnableFallbackSource => ENABLE_SOURCE_MESSAGE@,
            NoCapabilityAvailable::NoCompatibleSource => NO_COMPATIBLE_SOURCE_MESSAGE@,
            NoCapabilityAvailable::NoCompatibleHost => NO_COMPATIBLE_HOST_MESSAGE@,
        }
    }

    /// What is said to the operator on this failure.
    pub fn message(&self) -> (message: &'static str)
        ensures
            message@ == self.text(),
    {
        match self {
            NoCapabilityAvailable::EnableFallbackSource => ENABLE_SOURCE_MESSAGE,
            NoCapabilityAvailable::NoCompatibleSource => NO_COMPATIBLE_SOURCE_MESSAGE,
            NoCapabilityAvailable::NoCompatibleHost => NO_COMPATIBLE_HOST_MESSAGE,
        }
    }
}

impl BuildProfile {
    /// Whether selection looks at `kind` at all in this build. In the
    /// restricted runtime it looks at the host's random numbers and at nothing
    /// else; elsewhere at each enabled source but that one.
    pub open spec fn considers(self, kind: SourceKind) -> bool {
        if self.restricted_runtime {
            kind == SourceKind::HostProvidedRandom
        } else {
            match kind {
                SourceKind::DeterministicContext => self.deterministic_context,
                SourceKind::HardwareInstruction => self.hardware_instruction,
                SourceKind::SecureEnclaveService => self.secure_enclave_service,
                SourceKind::UnixDeviceFile => self.unix_device_file,
                SourceKind::HostProvidedRandom => false,
            }
        }
    }

    /// The failure of this build when it finds no source.
    pub open spec fn failure(self) -> NoCapabilityAvailable {
        if self.restricted_runtime {
            NoCapabilityAvailable::NoCompatibleHost
        } else if self.foreign_interface {
            NoCapabilityAvailable::NoCompatibleSource
        } else {
            NoCapabilityAvailable::EnableFallbackSource
        }
    }

    /// The step that selection takes when every kind of a rank below `rank`
    /// is out of the question: it asks the most preferred of the remaining
    /// kinds that the build considers, and fails when none remains.
    pub open spec fn step_from(self, rank: nat) -> Step
        decreases priority_order().len() - rank,
    {
        if rank >= priority_order().len() {
            Step::Fail(self.failure())
        } else if self.considers(priority_order()[rank as int]) {
            Step::Probe(priority_order()[rank as int])
        } else {
            self.step_from(rank + 1)
        }
    }

    /// Whether selection looks at `kind` at all in this build.
    pub fn is_candidate(&self, kind: SourceKind) -> (candidate: bool)
        ensures
            candidate == self.considers(kind),
    {
        if self.restricted_runtime {
            match kind {
                SourceKind::HostProvidedRandom => true,
                _ => false,
            }
        } else {
            match kind {
                SourceKind::DeterministicContext => self.deterministic_context,
                SourceKind::HardwareInstruction => self.hardware_instruction,
                SourceKind::SecureEnclaveService => self.secure_enclave_service,
                SourceKind::UnixDeviceFile => self.unix_device_file,
                SourceKind::HostProvidedRandom => false,
            }
        }
    }

    /// The failure of this build when it finds no source.
    pub fn exhaustion(&self) -> (failure: NoCapabilityAvailable)
        ensures
            failure == self.failure(),
    {
        if self.restricted_runtime {
            NoCapabilityAvailable::NoCompatibleHost
        } else if self.foreign_interface {
            NoCapabilityAvailable::NoCompatibleSource
        } else {
            NoCapabilityAvailable::EnableFallbackSource
        }
    }

    /// The step of `step_from` for a rank that fits a machine word.
    fn step_at(&self, rank: usize) -> (step: Step)
        ensures
            step == self.step_from(rank as nat),
    {
        let order = SourceKind::in_priority_order();
        let mut i: usize = rank;
        while i < 5
            invariant
                order@ == priority_order(),
                self.step_from(i as nat) == self.step_from(rank as nat),
            decreases 5 - i,
        {
            let kind = order[i];
            if self.is_candidate(kind) {
                return Step::Probe(kind);
            }
            i += 1;
        }
        Step::Fail(self.exhaustion())
    }

    /// How selection begins: with the most preferred kind that the build
    /// considers, or with failure when it considers none.
    pub fn first_step(&self) -> (step: Step)
        ensures
            step == self.step_from(0),
    {
        self.step_at(0)
    }

    /// How selection goes on once the source of kind `asked` has answered. An
    /// available source is handed out and no other is asked; after an
    /// unavailable one the kinds that are less preferred have their turn.
    pub fn next_step(&self, asked: SourceKind, available: bool) -> (step: Step)
        ensures
            step == (if available {
                Step::Issue(asked)
            } else {
                self.step_from(asked.rank() + 1)
            }),
    {
        if available {
            Step::Issue(asked)
        } else {
            self.step_at(asked.priority() + 1)
        }
    }
}

impl HostReport {
    /// Whether `kind` can be used on this host. The deterministic context
    /// seeder always can; for the others the host's answer stands.
    pub open spec fn reports(self, kind: SourceKind) -> bool {
        match kind {
            SourceKind::DeterministicContext => true,
            SourceKind::HardwareInstruction => self.hardware_instruction,
            SourceKind::SecureEnclaveService => self.secure_enclave_service,
            SourceKind::UnixDeviceFile => self.unix_device_file,
            SourceKind::HostProvidedRandom => self.host_provided_random,
        }
    }

    /// Whether `kind` can be used on this host.
    pub fn is_available(&self, kind: SourceKind) -> (available: bool)
        ensures
            available == self.reports(kind),
    {
        match kind {
            SourceKind::DeterministicContext => CustomSeeder::is_available(),
            SourceKind::HardwareInstruction => self.hardware_instruction,
            SourceKind::SecureEnclaveService => self.secure_enclave_service,
            SourceKind::UnixDeviceFile => self.unix_device_file,
            SourceKind::HostProvidedRandom => self.host_provided_random,
        }
    }
}

impl Capability {
    /// The kind of source that this capability is.
    pub open spec fn kind(self) -> SourceKind {
        match self {
            Capability::DeterministicContext(_) => SourceKind::DeterministicContext,
            Capability::HardwareInstruction => SourceKind::HardwareInstruction,
            Capability::SecureEnclaveService => SourceKind::SecureEnclaveService,
            Capability::UnixDeviceFile => SourceKind::UnixDeviceFile,
            Capability::HostProvidedRandom => SourceKind::HostProvidedRandom,
        }
    }

    /// The kind of source that this capability is.
    pub fn source(&self) -> (kind: SourceKind)
        ensures
            kind == self.kind(),
    {
        match self {
            Capability::DeterministicContext(_) => SourceKind::DeterministicContext,
            Capability::HardwareInstruction => SourceKind::HardwareInstruction,
            Capability::SecureEnclaveService => SourceKind::SecureEnclaveService,
            Capability::UnixDeviceFile => SourceKind::UnixDeviceFile,
            Capability::HostProvidedRandom => SourceKind::HostProvidedRandom,
        }
    }
}

/// No two kinds share a rank.
pub proof fn lemma_rank_identifies_kind(first: SourceKind, second: SourceKind)
    requires
        first.rank() == second.rank(),
    ensures
        first == second,
{
}

/// A kind stands at its rank in the order of preference.
pub proof fn lemma_kind_stands_at_its_rank(kind: SourceKind)
    ensures
        kind.rank() < priority_order().len(),
        priority_order()[kind.rank() as int] == kind,
{
}

/// What `step_from` comes to. It asks a kind that the build considers, of
/// the given rank or behind it, and to which the build prefers no other such
/// kind; or it fails, and then the build considers no kind of the given rank or
/// behind it. It never hands out a source unasked.
pub proof fn lemma_step_from(profile: BuildProfile, rank: nat)
    ensures
        (match profile.step_from(rank) {
            Step::Probe(kind) => {
                &&& profile.considers(kind)
                &&& rank <= kind.rank()
                &&& forall|other: SourceKind|
                    #[trigger] profile.considers(other) && rank <= other.rank() ==> kind.rank()
                        <= other.rank()
            },
            Step::Issue(_) => false,
            Step::Fail(failure) => {
                &&& failure == profile.failure()
                &&& forall|other: SourceKind| #[trigger]
                    profile.considers(other) ==> other.rank() < rank
            },
        }),
    decreases priority_order().len() - rank,
{
    if rank < priority_order().len() {
        let kind = priority_order()[rank as int];
        if profile.considers(kind) {
            assert(kind.rank() == rank);
        } else {
            lemma_step_from(profile, rank + 1);
            assert forall|other: SourceKind| other.rank() == rank implies other == kind by {
                lemma_kind_stands_at_its_rank(other);
            }
        }
    } else {
        assert forall|other: SourceKind| #[trigger] profile.considers(other) implies other.rank()
            < rank by {
            lemma_kind_stands_at_its_rank(other);
        }
    }
}

/// Selection has an answer: either nothing can be handed out, or some kind is
/// the choice.
pub proof fn lemma_choice_or_exhaustion(profile: BuildProfile, host: HostReport)
    ensures
        exhausted(profile, host) || exists|kind: SourceKind| is_choice(profile, host, kind),
{
    if usable(profile, host, SourceKind::DeterministicContext) {
        assert(is_choice(profile, host, SourceKind::DeterministicContext));
    } else if usable(profile, host, SourceKind::HardwareInstruction) {
        assert(is_choice(profile, host, SourceKind::HardwareInstruction));
    } else if usable(profile, host, SourceKind::SecureEnclaveService) {
        assert(is_choice(profile, host, SourceKind::SecureEnclaveService));
    } else if usable(profile, host, SourceKind::UnixDeviceFile) {
        assert(is_choice(profile, host, SourceKind::UnixDeviceFile));
    } else if usable(profile, host, SourceKind::HostProvidedRandom) {
        assert(is_choice(profile, host, SourceKind::HostProvidedRandom));
    }
}

/// Selection has one answer: two kinds that both are the choice of a build on
/// a host are the same kind.
pub proof fn lemma_choice_is_unique(
    profile: BuildProfile,
    host: HostReport,
    first: SourceKind,
    second: SourceKind,
)
    requires
        is_choice(profile, host, first),
        is_choice(profile, host, second),
    ensures
        first == second,
{
    assert(usable(profile, host, first));
    assert(usable(profile, host, second));
    lemma_rank_identifies_kind(first, second);
}

/// Priority. Where two kinds can both be handed out, the less preferred of
/// them is not the choice, and no choice is less preferred than the other one.
pub proof fn lemma_preferred_kind_wins(
    profile: BuildProfile,
    host: HostReport,
    preferred: SourceKind,
    other: SourceKind,
)
    requires
        usable(profile, host, preferred),
        usable(profile, host, other),
        preferred.rank() < other.rank(),
    ensures
        !exhausted(profile, host),
        !is_choice(profile, host, other),
        forall|kind: SourceKind| #[trigger]
            is_choice(profile, host, kind) ==> kind.rank() <= preferred.rank(),
{
}

/// Exhaustion. Where the host reports none of the kinds that the build
/// considers, nothing can be handed out and no kind is the choice.
pub proof fn lemma_nothing_available_nothing_chosen(profile: BuildProfile, host: HostReport)
    requires
        forall|kind: SourceKind| #[trigger] profile.considers(kind) ==> !host.reports(kind),
    ensures
        exhausted(profile, host),
        forall|kind: SourceKind| !#[trigger] is_choice(profile, host, kind),
{
}

/// In the restricted runtime nothing but the host's random numbers is ever
/// chosen, whatever else the build has enabled and the host reports.
pub proof fn lemma_restricted_runtime_choice(
    profile: BuildProfile,
    host: HostReport,
    kind: SourceKind,
)
    requires
        profile.restricted_runtime,
        is_choice(profile, host, kind),
    ensures
        kind == SourceKind::HostProvidedRandom,
{
}

/// Takes the steps of selection on a host whose answers are all at hand, and
/// so settles on the first kind in the order of preference that the build
/// considers and the host reports as available.
pub fn select(profile: &BuildProfile, host: &HostReport) -> (choice: Result<
    SourceKind,
    NoCapabilityAvailable,
>)
    ensures
        choice is Err <==> exhausted(*profile, *host),
        (match choice {
            Ok(kind) => is_choice(*profile, *host, kind),
            Err(failure) => failure == profile.failure(),
        }),
{
    let mut step = profile.first_step();
    let ghost mut tried: nat = 0;
    proof {
        lemma_step_from(*profile, 0);
    }
    loop
        invariant
            tried <= priority_order().len(),
            match step {
                Step::Issue(kind) => is_choice(*profile, *host, kind),
                _ => {
                    &&& step == profile.step_from(tried)
                    &&& forall|kind: SourceKind| #[trigger]
                        usable(*profile, *host, kind) ==> tried <= kind.rank()
                },
            },
        decreases priority_order().len() - tried,
    {
        proof {
            lemma_step_from(*profile, tried);
        }
        match step {
            Step::Probe(kind) => {
                let available = host.is_available(kind);
                step = profile.next_step(kind, available);
                proof {
                    lemma_kind_stands_at_its_rank(kind);
                    if available {
                        assert(usable(*profile, *host, kind));
                    } else {
                        lemma_step_from(*profile, kind.rank() + 1);
                        assert forall|other: SourceKind| #[trigger]
                            usable(*profile, *host, other) implies kind.rank() + 1
                            <= other.rank() by {
                            if other.rank() == kind.rank() {
                                lemma_rank_identifies_kind(other, kind);
                            }
                        }
                    }
                    tried = kind.rank() + 1;
                }
            },
            Step::Issue(kind) => {
                assert(usable(*profile, *host, kind));
                return Ok(kind);
            },
            Step::Fail(failure) => {
                assert forall|kind: SourceKind| !#[trigger] usable(*profile, *host, kind) by {
                    assert(profile.considers(kind) ==> kind.rank() < tried);
                }
                return Err(failure);
            },
        }
    }
}

/// Hands out the source of this build on this host. Where that is the
/// deterministic context seeder it is a copy of `registry`, which later changes
/// to the registry do not reach.
pub fn new_seeder(profile: &BuildProfile, host: &HostReport, registry: &CustomSeeder) -> (issued:
    Result<Capability, NoCapabilityAvailable>)
    ensures
        issued is Err <==> exhausted(*profile, *host),
        (match issued {
            Ok(capability) => {
                &&& is_choice(*profile, *host, capability.kind())
                &&& capability matches Capability::DeterministicContext(seeder) ==> seeder@
                    == registry@
            },
            Err(failure) => failure == profile.failure(),
        }),
{
    match select(profile, host) {
        Ok(SourceKind::DeterministicContext) => Ok(
            Capability::DeterministicContext(registry.clone()),
        ),
        Ok(SourceKind::HardwareInstruction) => Ok(Capability::HardwareInstruction),
        Ok(SourceKind::SecureEnclaveService) => Ok(Capability::SecureEnclaveService),
        Ok(SourceKind::UnixDeviceFile) => Ok(Capability::UnixDeviceFile),
        Ok(SourceKind::HostProvidedRandom) => Ok(Capability::HostProvidedRandom),
        Err(failure) => Err(failure),
    }
}

} // verus!
