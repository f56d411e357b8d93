use youtube_comment_search::youtube_url_parsing::YoutubeUrlError;
use youtube_comment_search::youtube_url_parsing::get_video_id_from_url;

// test the url parser
#[test]
fn url_parser_video_id_success() {
    // test successfully getting the video id
    let video_url = "https://www.youtube.com/watch?v=JVtkE8cgdOw";
    let share_url = "https://youtu.be/JVtkE8cgdOw";
    let video_id = "JVtkE8cgdOw";

    let video_url_id = get_video_id_from_url(video_url);
    assert!(video_url_id.is_ok());
    match video_url_id {
        Ok(id) => assert_eq!(id, video_id),
        Err(_) => (),
    }

    let share_url_id = get_video_id_from_url(share_url);
    assert!(share_url_id.is_ok());
    match share_url_id {
        Ok(id) => assert_eq!(id, video_id),
        Err(_) => (),
    }
}

#[test]
fn url_parser_video_id_fail() {
    // test when url is not correct
    let no_video_id = "https://www.youtube.com/";
    let no_share_id = "https://youtu.be/";
    let wrong_domain = "twitter.com";

    assert!(get_video_id_from_url(no_video_id).is_err());
    assert!(get_video_id_from_url(no_share_id).is_err());
    assert!(get_video_id_from_url(wrong_domain).is_err());
}

#[test]
fn long_form_hosts_return_id_verbatim() {
    assert_eq!(
        get_video_id_from_url("https://www.youtube.com/watch?v=JVtkE8cgdOw"),
        Ok(String::from("JVtkE8cgdOw"))
    );
    assert_eq!(
        get_video_id_from_url("https://youtube.com/watch?v=JVtkE8cgdOw"),
        Ok(String::from("JVtkE8cgdOw"))
    );
}

#[test]
fn short_form_hosts_return_id_verbatim() {
    assert_eq!(
        get_video_id_from_url("https://youtu.be/JVtkE8cgdOw"),
        Ok(String::from("JVtkE8cgdOw"))
    );
    assert_eq!(
        get_video_id_from_url("https://www.youtu.be/JVtkE8cgdOw"),
        Ok(String::from("JVtkE8cgdOw"))
    );
}

#[test]
fn long_form_without_query_is_video_id_not_found() {
    assert_eq!(
        get_video_id_from_url("https://www.youtube.com/"),
        Err(YoutubeUrlError::VideoIdNotFound)
    );
}

#[test]
fn short_form_with_empty_path_is_video_id_not_found() {
    assert_eq!(
        get_video_id_from_url("https://youtu.be/"),
        Err(YoutubeUrlError::VideoIdNotFound)
    );
}

#[test]
fn foreign_host_is_unsupported_domain() {
    assert_eq!(
        get_video_id_from_url("https://twitter.com/x"),
        Err(YoutubeUrlError::UnsupportedDomain)
    );
}

#[test]
fn unparsable_string_is_malformed_url() {
    assert_eq!(
        get_video_id_from_url("not a url at all"),
        Err(YoutubeUrlError::MalformedUrl)
    );
}

#[test]
fn hostless_url_is_missing_host() {
    assert_eq!(
        get_video_id_from_url("mailto:someone@example.com"),
        Err(YoutubeUrlError::MissingHost)
    );
}

#[test]
fn resolution_is_idempotent() {
    let inputs = [
        "https://www.youtube.com/watch?v=JVtkE8cgdOw",
        "https://youtu.be/JVtkE8cgdOw",
        "https://www.youtube.com/",
        "https://twitter.com/x",
        "not a url at all",
    ];
    for url in inputs {
        assert_eq!(get_video_id_from_url(url), get_video_id_from_url(url));
    }
}

#[test]
fn query_id_stops_at_parameter_separator() {
    assert_eq!(
        get_video_id_from_url("https://www.youtube.com/watch?v=abc&t=42"),
        Ok(String::from("abc"))
    );
}

#[test]
fn query_must_lead_with_video_assignment() {
    assert_eq!(
        get_video_id_from_url("https://www.youtube.com/watch?t=42&v=abc"),
        Err(YoutubeUrlError::VideoIdNotFound)
    );
    assert_eq!(
        get_video_id_from_url("https://www.youtube.com/watch?v="),
        Err(YoutubeUrlError::VideoIdNotFound)
    );
}

#[test]
fn short_form_takes_first_path_segment() {
    assert_eq!(
        get_video_id_from_url("https://youtu.be/abc/extra"),
        Ok(String::from("abc"))
    );
}

#[test]
fn error_messages_name_the_failure() {
    assert_eq!(YoutubeUrlError::MalformedUrl.message(), "Url Parse Error");
    assert_eq!(YoutubeUrlError::MissingHost.message(), "There is no host string");
    assert_eq!(
        YoutubeUrlError::UnsupportedDomain.message(),
        "Not a valid youtube video url"
    );
    assert_eq!(
        YoutubeUrlError::VideoIdNotFound.message(),
        "No video found from URL"
    );
}
