use seeders::{
    select, BuildProfile, CustomSeeder, HostReport, NoCapabilityAvailable, Seeder, SourceKind,
    Step,
};

const KINDS: [SourceKind; 5] = [
    SourceKind::DeterministicContext,
    SourceKind::HardwareInstruction,
    SourceKind::SecureEnclaveService,
    SourceKind::UnixDeviceFile,
    SourceKind::HostProvidedRandom,
];

fn build(bits: u32) -> BuildProfile {
    BuildProfile {
        restricted_runtime: bits & 1 != 0,
        deterministic_context: bits & 2 != 0,
        hardware_instruction: bits & 4 != 0,
        secure_enclave_service: bits & 8 != 0,
        unix_device_file: bits & 16 != 0,
        foreign_interface: bits & 32 != 0,
    }
}

fn answers(bits: u32) -> HostReport {
    HostReport {
        hardware_instruction: bits & 1 != 0,
        secure_enclave_service: bits & 2 != 0,
        unix_device_file: bits & 4 != 0,
        host_provided_random: bits & 8 != 0,
    }
}

fn native_build(hardware: bool, enclave: bool, unix: bool) -> BuildProfile {
    BuildProfile {
        restricted_runtime: false,
        deterministic_context: false,
        hardware_instruction: hardware,
        secure_enclave_service: enclave,
        unix_device_file: unix,
        foreign_interface: false,
    }
}

/// Takes the steps of selection, asking `host` each time, and notes what was asked.
fn walk(
    profile: &BuildProfile,
    host: &HostReport,
) -> (Result<SourceKind, NoCapabilityAvailable>, Vec<SourceKind>) {
    let mut asked = Vec::new();
    let mut step = profile.first_step();
    loop {
        step = match step {
            Step::Probe(kind) => {
                asked.push(kind);
                assert!(asked.len() <= 5);
                profile.next_step(kind, host.is_available(kind))
            }
            Step::Issue(kind) => return (Ok(kind), asked),
            Step::Fail(failure) => return (Err(failure), asked),
        };
    }
}

#[test]
fn nothing_is_asked_behind_the_source_settled_on() {
    let host = HostReport {
        hardware_instruction: true,
        secure_enclave_service: true,
        unix_device_file: true,
        host_provided_random: true,
    };
    let (choice, asked) = walk(&native_build(true, true, true), &host);
    assert_eq!(choice, Ok(SourceKind::HardwareInstruction));
    assert_eq!(asked, vec![SourceKind::HardwareInstruction]);
}

#[test]
fn sources_are_asked_in_the_order_of_preference() {
    let host = HostReport {
        hardware_instruction: false,
        secure_enclave_service: false,
        unix_device_file: true,
        host_provided_random: true,
    };
    let (choice, asked) = walk(&native_build(true, true, true), &host);
    assert_eq!(choice, Ok(SourceKind::UnixDeviceFile));
    assert_eq!(
        asked,
        vec![
            SourceKind::HardwareInstruction,
            SourceKind::SecureEnclaveService,
            SourceKind::UnixDeviceFile
        ]
    );
}

#[test]
fn a_source_that_the_build_lacks_is_not_asked() {
    let host = HostReport {
        hardware_instruction: true,
        secure_enclave_service: true,
        unix_device_file: true,
        host_provided_random: true,
    };
    let (choice, asked) = walk(&native_build(false, false, true), &host);
    assert_eq!(choice, Ok(SourceKind::UnixDeviceFile));
    assert_eq!(asked, vec![SourceKind::UnixDeviceFile]);
}

#[test]
fn every_source_of_the_build_is_asked_before_failure() {
    let host = HostReport {
        hardware_instruction: false,
        secure_enclave_service: false,
        unix_device_file: false,
        host_provided_random: true,
    };
    let (choice, asked) = walk(&native_build(true, false, true), &host);
    assert_eq!(choice, Err(NoCapabilityAvailable::EnableFallbackSource));
    assert_eq!(asked, vec![SourceKind::HardwareInstruction, SourceKind::UnixDeviceFile]);
}

#[test]
fn a_build_without_sources_fails_at_once() {
    assert_eq!(
        native_build(false, false, false).first_step(),
        Step::Fail(NoCapabilityAvailable::EnableFallbackSource)
    );
    let mut foreign = native_build(false, false, false);
    foreign.foreign_interface = true;
    assert_eq!(foreign.first_step(), Step::Fail(NoCapabilityAvailable::NoCompatibleSource));
}

#[test]
fn deterministic_context_is_asked_first() {
    let mut profile = native_build(true, true, true);
    profile.deterministic_context = true;
    assert_eq!(profile.first_step(), Step::Probe(SourceKind::DeterministicContext));
    assert_eq!(
        profile.next_step(SourceKind::DeterministicContext, CustomSeeder::is_available()),
        Step::Issue(SourceKind::DeterministicContext)
    );
}

#[test]
fn restricted_runtime_asks_for_host_random_alone() {
    let mut profile = native_build(true, true, true);
    profile.deterministic_context = true;
    profile.restricted_runtime = true;
    assert_eq!(profile.first_step(), Step::Probe(SourceKind::HostProvidedRandom));
    assert_eq!(
        profile.next_step(SourceKind::HostProvidedRandom, true),
        Step::Issue(SourceKind::HostProvidedRandom)
    );
    assert_eq!(
        profile.next_step(SourceKind::HostProvidedRandom, false),
        Step::Fail(NoCapabilityAvailable::NoCompatibleHost)
    );
}

#[test]
fn an_available_source_is_handed_out_whatever_the_build() {
    for bits in 0..64 {
        for kind in KINDS {
            assert_eq!(build(bits).next_step(kind, true), Step::Issue(kind));
        }
    }
}

#[test]
fn after_an_unavailable_source_the_next_of_the_build_is_asked() {
    let profile = native_build(true, false, true);
    assert_eq!(
        profile.next_step(SourceKind::HardwareInstruction, false),
        Step::Probe(SourceKind::UnixDeviceFile)
    );
    assert_eq!(
        profile.next_step(SourceKind::DeterministicContext, false),
        Step::Probe(SourceKind::HardwareInstruction)
    );
    assert_eq!(
        profile.next_step(SourceKind::UnixDeviceFile, false),
        Step::Fail(NoCapabilityAvailable::EnableFallbackSource)
    );
    assert_eq!(
        profile.next_step(SourceKind::HostProvidedRandom, false),
        Step::Fail(NoCapabilityAvailable::EnableFallbackSource)
    );
}

#[test]
fn ranks_follow_the_order_of_preference() {
    for (place, kind) in KINDS.iter().enumerate() {
        assert_eq!(kind.priority(), place);
    }
}

#[test]
fn steps_come_to_what_select_gives() {
    for p in 0..64 {
        for h in 0..16 {
            let profile = build(p);
            let host = answers(h);
            let (choice, asked) = walk(&profile, &host);
            assert_eq!(choice, select(&profile, &host));
            let mut expected = Vec::new();
            for kind in KINDS {
                if profile.is_candidate(kind) {
                    expected.push(kind);
                    if host.is_available(kind) {
                        break;
                    }
                }
            }
            assert_eq!(asked, expected);
        }
    }
}
