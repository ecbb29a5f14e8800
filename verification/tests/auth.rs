use std::time::{Duration, SystemTime, UNIX_EPOCH};

use ytmusic_service::auth::{
    version_from_loaded_at, version_from_parts, AuthContext, AuthState, ReloadAction, ReloadEvent,
    VersionSequence,
};
use ytmusic_service::clock::{EpochOffset, UnixTime};
use ytmusic_service::error::{ServiceError, YtMusicError};

fn at(t: SystemTime) -> UnixTime {
    UnixTime::from_system_time(&t)
}

#[test]
fn version_generation_handles_pre_epoch_clock() {
    let version = version_from_loaded_at(at(UNIX_EPOCH - Duration::from_secs(1)), 0);

    assert!(!version.is_empty());
}

#[test]
fn version_before_epoch_uses_zero_timestamp() {
    let version = version_from_loaded_at(at(UNIX_EPOCH - Duration::from_secs(1)), 7);

    assert_eq!(version, format!("{:032x}-{:016x}", 0u128, 7u64));
}

#[test]
fn version_matches_fixed_width_hex_layout() {
    let version = version_from_parts(0x1234_5678_9abc_def0, 0xff);

    assert_eq!(version, "0000000000000000123456789abcdef0-00000000000000ff");
    assert_eq!(version.len(), 49);
}

#[test]
fn version_after_epoch_counts_nanoseconds() {
    let version = version_from_loaded_at(at(UNIX_EPOCH + Duration::new(2, 5)), 1);

    assert_eq!(version, format!("{:032x}-{:016x}", 2_000_000_005u128, 1u64));
}

#[test]
fn version_extremes_are_distinct() {
    let low = version_from_parts(0, 0);
    let high = version_from_parts(u128::MAX, u64::MAX);

    assert_eq!(low, format!("{}-{}", "0".repeat(32), "0".repeat(16)));
    assert_eq!(high, format!("{}-{}", "f".repeat(32), "f".repeat(16)));
    assert_ne!(low, high);
}

fn loaded(label: &str, secs: u64) -> (String, UnixTime) {
    (label.to_owned(), at(UNIX_EPOCH + Duration::from_secs(secs)))
}

fn validation_failure() -> ServiceError {
    ServiceError::YtMusic(YtMusicError::AuthValidation("probe rejected auth".to_owned()))
}

#[test]
fn reload_keeps_previous_context_on_validation_failure() {
    let mut state = AuthState::new("initial".to_owned(), at(UNIX_EPOCH + Duration::from_secs(60)));
    let old_version = state.active_version().to_owned();

    let candidate = match state.step(ReloadEvent::Loaded(Ok(loaded("replacement", 60)))) {
        ReloadAction::Probe(candidate) => candidate,
        ReloadAction::Respond(_) => panic!("a loaded candidate must be probed"),
    };
    let result = match state.step(ReloadEvent::Probed(candidate, Err(validation_failure()))) {
        ReloadAction::Respond(result) => result,
        ReloadAction::Probe(_) => panic!("a probed candidate must be answered"),
    };

    assert!(result.is_err());
    assert_eq!(state.active_version(), old_version);
    assert_eq!(state.active().client, "initial");
}

#[test]
fn reload_swaps_context_after_successful_probe() {
    let mut state = AuthState::new("initial".to_owned(), at(UNIX_EPOCH + Duration::from_secs(60)));
    let old_version = state.active_version().to_owned();

    let candidate = match state.step(ReloadEvent::Loaded(Ok(loaded("replacement", 60)))) {
        ReloadAction::Probe(candidate) => candidate,
        ReloadAction::Respond(_) => panic!("a loaded candidate must be probed"),
    };
    let new_version = match state.step(ReloadEvent::Probed(candidate, Ok(()))) {
        ReloadAction::Respond(Ok(version)) => version,
        _ => panic!("a successful probe must activate the candidate"),
    };

    assert_ne!(old_version, new_version);
    assert_eq!(state.active_version(), new_version);
    assert_eq!(state.active().client, "replacement");
}

#[test]
fn reload_browser_auth_preserves_prior_version_when_load_fails() {
    let mut state = AuthState::new("initial".to_owned(), at(UNIX_EPOCH + Duration::from_secs(60)));
    let old_version = state.active_version().to_owned();

    let load_failure = ServiceError::BrowserAuthLoad(YtMusicError::AuthValidation(
        "missing required auth headers".to_owned(),
    ));
    let result = match state.step(ReloadEvent::Loaded(Err(load_failure))) {
        ReloadAction::Respond(result) => result,
        ReloadAction::Probe(_) => panic!("a failed load must not be probed"),
    };

    assert!(matches!(result, Err(ServiceError::BrowserAuthLoad(_))));
    assert_eq!(state.active_version(), old_version);
}

#[test]
fn reload_at_the_same_instant_still_changes_version() {
    let mut state = AuthState::new("initial".to_owned(), at(UNIX_EPOCH + Duration::from_secs(60)));
    assert_eq!(state.active_version(), format!("{:032x}-{:016x}", 60_000_000_000u128, 0u64));

    let candidate = match state.step(ReloadEvent::Loaded(Ok(loaded("replacement", 60)))) {
        ReloadAction::Probe(candidate) => candidate,
        ReloadAction::Respond(_) => panic!("a loaded candidate must be probed"),
    };
    assert_eq!(candidate.version, format!("{:032x}-{:016x}", 60_000_000_000u128, 1u64));
    match state.step(ReloadEvent::Probed(candidate, Ok(()))) {
        ReloadAction::Respond(Ok(version)) => {
            assert_eq!(version, format!("{:032x}-{:016x}", 60_000_000_000u128, 1u64));
        }
        _ => panic!("a successful probe must activate the candidate"),
    }
    assert_eq!(state.active().client, "replacement");
}

#[test]
fn version_sequence_counts_up_from_zero() {
    let mut sequence = VersionSequence::new();
    assert_eq!(sequence.draw(), 0);
    assert_eq!(sequence.draw(), 1);
    assert_eq!(sequence.draw(), 2);
}

#[test]
fn context_label_uses_seconds_and_nanoseconds_since_epoch() {
    let loaded_at = UnixTime { since_epoch: Some(EpochOffset { secs: 3, subsec_nanos: 250 }) };
    let context = AuthContext::from_loaded_client("client", loaded_at, 9);

    assert_eq!(context.version, format!("{:032x}-{:016x}", 3_000_000_250u128, 9u64));
    assert_eq!(context.client, "client");
}

#[test]
fn system_time_before_epoch_has_no_offset() {
    assert!(at(UNIX_EPOCH - Duration::from_secs(1)).since_epoch.is_none());
    let offset = at(UNIX_EPOCH + Duration::new(7, 42)).since_epoch.unwrap();
    assert_eq!((offset.secs, offset.subsec_nanos), (7, 42));
}
