use cspot::uri::track_uri_from_input;

const ID: &str = "4cOdK2wGLETKBW3PvgPWqT";

#[test]
fn a_track_uri_is_kept_canonical() {
    let input = format!("spotify:track:{ID}");
    assert_eq!(track_uri_from_input(&input).as_deref(), Some(input.as_str()));
}

#[test]
fn a_bare_base62_id_becomes_a_track_uri() {
    let expected = format!("spotify:track:{ID}");
    assert_eq!(track_uri_from_input(ID).as_deref(), Some(expected.as_str()));
}

#[test]
fn the_all_zero_id_is_accepted() {
    let id = "0000000000000000000000";
    let expected = format!("spotify:track:{id}");
    assert_eq!(track_uri_from_input(id).as_deref(), Some(expected.as_str()));
}

#[test]
fn a_named_track_uri_drops_the_user() {
    let input = format!("spotify:user:alice:track:{ID}");
    let expected = format!("spotify:track:{ID}");
    assert_eq!(track_uri_from_input(&input).as_deref(), Some(expected.as_str()));
}

#[test]
fn extra_uri_parts_are_ignored() {
    let input = format!("spotify:track:{ID}:play");
    let expected = format!("spotify:track:{ID}");
    assert_eq!(track_uri_from_input(&input).as_deref(), Some(expected.as_str()));
}

#[test]
fn non_track_uris_are_rejected() {
    assert_eq!(track_uri_from_input(&format!("spotify:album:{ID}")), None);
    assert_eq!(track_uri_from_input(&format!("spotify:episode:{ID}")), None);
    assert_eq!(track_uri_from_input("spotify:local:a:b:c:123"), None);
    assert_eq!(track_uri_from_input("spotify"), None);
    assert_eq!(track_uri_from_input("spotify:track:"), None);
}

#[test]
fn malformed_ids_are_rejected() {
    // Too short, too long, bad characters, and a value beyond 128 bits.
    assert_eq!(track_uri_from_input("4cOdK2wGLETKBW3PvgPWq"), None);
    assert_eq!(track_uri_from_input("4cOdK2wGLETKBW3PvgPWqTT"), None);
    assert_eq!(track_uri_from_input("4cOdK2wGLETKBW3Pvg!WqT"), None);
    assert_eq!(track_uri_from_input("zzzzzzzzzzzzzzzzzzzzzz"), None);
    assert_eq!(track_uri_from_input(&format!("spotify:track:{}", "z".repeat(22))), None);
}

#[test]
fn other_inputs_are_rejected() {
    assert_eq!(track_uri_from_input(""), None);
    assert_eq!(track_uri_from_input(":"), None);
    assert_eq!(track_uri_from_input("spotify:"), None);
    assert_eq!(track_uri_from_input("http://open.spotify.invalid/track/x"), None);
    assert_eq!(track_uri_from_input("spotify:user:alice:playlist:37i9dQZF1DWSw8liJZcPOI"), None);
}
