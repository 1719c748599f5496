use onboarder::http::{respond, respond_text, route, Method, Route};

#[test]
fn options_is_a_preflight_on_any_path() {
    assert_eq!(route(Method::Options, "/set_note"), Route::Preflight);
    assert_eq!(route(Method::Options, "/"), Route::Preflight);
    assert_eq!(route(Method::Options, "/no/such/thing"), Route::Preflight);
    assert_eq!(route(Method::Options, ""), Route::Preflight);
}

#[test]
fn each_route_has_its_method_and_path() {
    assert_eq!(route(Method::Get, "/healthcheck"), Route::Healthcheck);
    assert_eq!(route(Method::Post, "/set_note"), Route::SetNote);
    assert_eq!(route(Method::Get, "/get_note"), Route::GetNote);
    assert_eq!(route(Method::Get, "/exists"), Route::Exists);
    assert_eq!(route(Method::Post, "/download"), Route::Download);
    assert_eq!(route(Method::Post, "/download_audio"), Route::DownloadAudio);
    assert_eq!(route(Method::Post, "/download_subtitles"), Route::DownloadSubtitles);
    assert_eq!(route(Method::Post, "/open_videos_folder"), Route::OpenVideosFolder);
    assert_eq!(route(Method::Post, "/open_notes_folder"), Route::OpenNotesFolder);
}

#[test]
fn the_wrong_method_is_not_found() {
    assert_eq!(route(Method::Post, "/healthcheck"), Route::NotFound);
    assert_eq!(route(Method::Get, "/set_note"), Route::NotFound);
    assert_eq!(route(Method::Post, "/get_note"), Route::NotFound);
    assert_eq!(route(Method::Post, "/exists"), Route::NotFound);
    assert_eq!(route(Method::Get, "/download"), Route::NotFound);
    assert_eq!(route(Method::Get, "/download_audio"), Route::NotFound);
    assert_eq!(route(Method::Get, "/download_subtitles"), Route::NotFound);
    assert_eq!(route(Method::Get, "/open_videos_folder"), Route::NotFound);
    assert_eq!(route(Method::Get, "/open_notes_folder"), Route::NotFound);
    assert_eq!(route(Method::Other, "/healthcheck"), Route::NotFound);
    assert_eq!(route(Method::Other, "/set_note"), Route::NotFound);
}

#[test]
fn paths_are_matched_exactly() {
    assert_eq!(route(Method::Get, "/"), Route::NotFound);
    assert_eq!(route(Method::Get, ""), Route::NotFound);
    assert_eq!(route(Method::Get, "/healthcheck/"), Route::NotFound);
    assert_eq!(route(Method::Get, "/Healthcheck"), Route::NotFound);
    assert_eq!(route(Method::Get, "healthcheck"), Route::NotFound);
    assert_eq!(route(Method::Post, "/download_"), Route::NotFound);
    assert_eq!(route(Method::Post, "/downloads"), Route::NotFound);
}

#[test]
fn every_response_has_the_three_headers() {
    let expected = vec![
        ("Access-Control-Allow-Origin".to_string(), "https://www.youtube.com".to_string()),
        ("Access-Control-Allow-Methods".to_string(), "GET, POST, OPTIONS".to_string()),
        ("Access-Control-Allow-Headers".to_string(), "Content-Type".to_string()),
    ];
    for status in [200u16, 400, 404, 500] {
        let response = respond(status, "body".to_string());
        assert_eq!(response.status, status);
        assert_eq!(response.body, "body");
        assert_eq!(response.headers, expected);
    }
    let response = respond_text(404, "");
    assert_eq!(response.status, 404);
    assert_eq!(response.body, "");
    assert_eq!(response.headers, expected);
}
