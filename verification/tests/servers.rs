use std::time::{Duration, UNIX_EPOCH};

use ytmusic_service::error::{CipherError, CipherErrorKind, ServiceError, YtMusicError};
use ytmusic_service::servers::cipher::{CipherService, DecipherRequest};
use ytmusic_service::servers::music::{GetSongRequest, MusicService};
use ytmusic_service::clock::UnixTime;
use ytmusic_service::servers::status::StatusService;
use ytmusic_service::status::{RpcCode, SUBSYSTEM_METADATA_KEY};

#[test]
fn decipher_rejects_blank_signature_cipher() {
    let error = CipherService::decipher_request(DecipherRequest {
        signature_cipher: "  ".to_owned(),
    })
    .unwrap_err();

    assert_eq!(error.code, RpcCode::InvalidArgument);
    assert_eq!(error.message, "signature_cipher must not be empty");
}

#[test]
fn decipher_passes_signature_cipher_through() {
    let cipher = CipherService::decipher_request(DecipherRequest {
        signature_cipher: "s=abc".to_owned(),
    })
    .unwrap();
    assert_eq!(cipher, "s=abc");
}

#[test]
fn subsystem_metadata_is_present_on_upstream_failures() {
    let error = CipherService::failure_status(&ServiceError::Cipher(CipherError {
        kind: CipherErrorKind::SignatureDecipherFailed,
        message: "signature decipher failed".to_owned(),
    }));

    assert_eq!(error.code, RpcCode::Internal);
    assert_eq!(SUBSYSTEM_METADATA_KEY, "ytmusic-service-subsystem");
    assert_eq!(error.subsystem.as_deref(), Some("cipher"));
}

#[test]
fn music_failures_are_tagged_with_the_music_subsystem() {
    let status = MusicService::failure_status(&ServiceError::YtMusic(YtMusicError::HttpStatus {
        status: 429,
        message: "slow down".to_owned(),
    }));
    assert_eq!(status.code, RpcCode::ResourceExhausted);
    assert_eq!(status.message, "slow down");
    assert_eq!(status.subsystem.as_deref(), Some("ytmusic"));
}

#[test]
fn get_song_requires_a_video_id() {
    let error = MusicService::get_song_request(GetSongRequest { video_id: " ".to_owned() })
        .unwrap_err();
    assert_eq!(error.code, RpcCode::InvalidArgument);
    assert_eq!(error.message, "video_id must not be empty");

    let video_id =
        MusicService::get_song_request(GetSongRequest { video_id: "0rilIYWiJ7M".to_owned() })
            .unwrap();
    assert_eq!(video_id, "0rilIYWiJ7M");
}

#[test]
fn status_reports_cipher_and_ytmusic_ready() {
    let service = StatusService {
        started_at: UnixTime::from_system_time(&(UNIX_EPOCH + Duration::from_secs(1_700_000_000))),
        listen_addr: "127.0.0.1:50051".to_owned(),
        version: "0.1.0".to_owned(),
    };

    let response = service.get_status();

    assert!(response.ytmusic_ready);
    assert!(response.cipher_ready);
    assert_eq!(response.lifecycle, "serving");
    assert_eq!(response.listen_addr, "127.0.0.1:50051");
    assert_eq!(response.version, "0.1.0");
    assert_eq!(response.started_at_unix_seconds, 1_700_000_000);
}

#[test]
fn status_before_epoch_reports_zero_start() {
    let service = StatusService {
        started_at: UnixTime::from_system_time(&(UNIX_EPOCH - Duration::from_secs(5))),
        listen_addr: String::new(),
        version: String::new(),
    };
    assert_eq!(service.get_status().started_at_unix_seconds, 0);
}
