use latke::client::{
    complete_library, complete_playback, complete_playlists, complete_raw, complete_unit,
    IBroadcastClient,
};
use latke::errors::IBroadcastError;

const LOGIN_OK: &str = "{\"message\":\"ok\",\"authenticated\":true,\"result\":true,\"token\":\"T\",\"user\":{\"id\":\"42\"},\"expires\":3600}";

fn logged_in() -> IBroadcastClient {
    let mut c = IBroadcastClient::new(0);
    c.complete_login(LOGIN_OK, 0).unwrap();
    c
}

#[test]
fn every_endpoint_requires_a_token() {
    let c = IBroadcastClient::new(0);
    assert!(matches!(c.get_library_request(), Err(IBroadcastError::NotLoggedIn)));
    assert!(matches!(c.get_stream_url_request("9"), Err(IBroadcastError::NotLoggedIn)));
    assert!(matches!(c.search_request("q"), Err(IBroadcastError::NotLoggedIn)));
    assert!(matches!(c.create_playlist_request("p"), Err(IBroadcastError::NotLoggedIn)));
    assert!(matches!(c.add_to_playlist_request("p", "m"), Err(IBroadcastError::NotLoggedIn)));
    assert!(matches!(c.remove_from_playlist_request("p", "m"), Err(IBroadcastError::NotLoggedIn)));
    assert!(matches!(c.delete_playlist_request("p"), Err(IBroadcastError::NotLoggedIn)));
    assert!(matches!(c.get_playback_status_request(), Err(IBroadcastError::NotLoggedIn)));
    assert!(matches!(c.get_playback_request(), Err(IBroadcastError::NotLoggedIn)));
    assert!(matches!(c.play_request("m"), Err(IBroadcastError::NotLoggedIn)));
    assert!(matches!(c.get_playlists_request(), Err(IBroadcastError::NotLoggedIn)));
}

#[test]
fn endpoint_requests_carry_mode_token_and_arguments() {
    let c = logged_in();
    let ps = c.get_library_request().unwrap();
    assert_eq!(ps[0], ("mode".to_string(), "getlibrary".to_string()));
    assert_eq!(ps[1], ("token".to_string(), "T".to_string()));

    let ps = c.get_stream_url_request("track9").unwrap();
    assert_eq!(ps[0].1, "stream");
    assert_eq!(ps[2], ("id".to_string(), "track9".to_string()));

    let ps = c.search_request("hello").unwrap();
    assert_eq!(ps[0].1, "search");
    assert_eq!(ps[2], ("query".to_string(), "hello".to_string()));

    let ps = c.create_playlist_request("mix").unwrap();
    assert_eq!(ps[0].1, "createplaylist");
    assert_eq!(ps[2], ("name".to_string(), "mix".to_string()));

    let ps = c.add_to_playlist_request("p1", "m2").unwrap();
    assert_eq!(ps[0].1, "addtoplaylist");
    assert_eq!(ps[2], ("playlist_id".to_string(), "p1".to_string()));
    assert_eq!(ps[3], ("media_id".to_string(), "m2".to_string()));

    let ps = c.remove_from_playlist_request("p1", "m2").unwrap();
    assert_eq!(ps[0].1, "removefromplaylist");

    let ps = c.delete_playlist_request("p1").unwrap();
    assert_eq!(ps[0].1, "deleteplaylist");
    assert_eq!(ps[2], ("playlist_id".to_string(), "p1".to_string()));

    let ps = c.get_playback_status_request().unwrap();
    assert_eq!(ps[0].1, "getplaybackstatus");

    let ps = c.get_playback_request().unwrap();
    assert_eq!(ps[0].1, "getplayback");

    let ps = c.play_request("m2").unwrap();
    assert_eq!(ps[0].1, "play");
    assert_eq!(ps[2], ("media_id".to_string(), "m2".to_string()));

    let ps = c.get_playlists_request().unwrap();
    assert_eq!(ps[0].1, "getplaylists");
}

#[test]
fn library_response_keeps_sections_as_json_text() {
    let body = "{\"status\":\"ok\",\"library\":{\"tracks\":[1,2]},\"playlists\":[\"a\",\"b\"]}";
    let resp = complete_library(body).unwrap();
    assert_eq!(resp.status, "ok");
    assert_eq!(resp.library, "{\"tracks\":[1,2]}");
    assert_eq!(resp.playlists, "[\"a\",\"b\"]");
}

#[test]
fn playback_response_parses_all_fields() {
    let body = "{\"status\":\"ok\",\"stream_url\":\"https://s/1\",\"duration\":215,\"bitrate\":320}";
    let resp = complete_playback(body).unwrap();
    assert_eq!(resp.stream_url, "https://s/1");
    assert_eq!(resp.duration, 215);
    assert_eq!(resp.bitrate, 320);
}

#[test]
fn playlist_response_parses_all_fields() {
    let body = "{\"status\":\"ok\",\"playlist_id\":\"p1\",\"name\":\"mix\"}";
    let resp = complete_playlists(body).unwrap();
    assert_eq!(resp.playlist_id, "p1");
    assert_eq!(resp.name, "mix");
}

#[test]
fn missing_fields_are_an_invalid_response() {
    assert!(matches!(
        complete_playback("{\"status\":\"ok\"}"),
        Err(IBroadcastError::InvalidResponse(_))
    ));
    assert!(matches!(
        complete_playlists("{\"status\":\"ok\"}"),
        Err(IBroadcastError::InvalidResponse(_))
    ));
    assert!(matches!(
        complete_library("{\"status\":\"ok\"}"),
        Err(IBroadcastError::InvalidResponse(_))
    ));
}

#[test]
fn raw_completion_hands_valid_json_through() {
    let body = "{\"anything\":[1,2,3]}";
    assert_eq!(complete_raw(body).unwrap(), body);
    assert!(matches!(complete_raw("nope"), Err(IBroadcastError::InvalidResponse(_))));
}

#[test]
fn unit_completion_checks_the_body() {
    assert!(complete_unit("{\"status\":\"ok\"}").is_ok());
    assert!(matches!(complete_unit("<html>"), Err(IBroadcastError::InvalidResponse(_))));
}
