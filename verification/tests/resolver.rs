use image_pull::errors::PullError;
use image_pull::ident::cid_from_request;
use image_pull::ident::verify_cid;
use image_pull::ident::PullRequest;

fn request(cid: &str, image: &str) -> PullRequest {
    PullRequest {
        image: image.to_string(),
        container_id: cid.to_string(),
        source_creds: String::new(),
    }
}

#[test]
fn test_cid_from_request() {
    struct Case {
        cid: &'static str,
        image: &'static str,
        result: Option<&'static str>,
    }

    let cases = [
        Case { cid: "", image: "", result: None },
        Case { cid: "..", image: "", result: None },
        Case { cid: "", image: "..", result: None },
        Case { cid: "", image: "abc/..", result: None },
        Case { cid: "", image: "abc/", result: None },
        Case { cid: "", image: "../abc", result: Some("abc") },
        Case { cid: "", image: "../9abc", result: Some("9abc") },
        Case { cid: "some-string.1_2", image: "", result: Some("some-string.1_2") },
        Case { cid: "0some-string.1_2", image: "", result: Some("0some-string.1_2") },
        Case { cid: "a:b", image: "", result: None },
        Case { cid: "", image: "prefix/a:b", result: Some("a_b") },
        Case { cid: "", image: "/a/b/c/d:e", result: Some("d_e") },
    ];

    for case in &cases {
        let req = request(case.cid, case.image);
        let ret = cid_from_request(&req);
        match (case.result, ret) {
            (Some(expected), Ok(actual)) => assert_eq!(expected, actual),
            (None, Err(_)) => (),
            (None, Ok(r)) => panic!("Expected an error, got {}", r),
            (Some(expected), Err(e)) => {
                panic!("Expected {} but got an error ({:?})", expected, e)
            },
        }
    }
}

#[test]
fn explicit_id_is_used_verbatim() {
    let req = request("some-string.1_2", "prefix/whatever:tag");
    assert_eq!(cid_from_request(&req).unwrap(), "some-string.1_2");
}

#[test]
fn explicit_id_with_colon_is_rejected() {
    let req = request("a:b", "prefix/fine");
    assert_eq!(cid_from_request(&req).unwrap_err(), PullError::InvalidContainerId);
}

#[test]
fn derived_id_is_final_segment() {
    let req = request("", "../abc");
    assert_eq!(cid_from_request(&req).unwrap(), "abc");
}

#[test]
fn derived_id_replaces_colons() {
    let req = request("", "prefix/a:b");
    assert_eq!(cid_from_request(&req).unwrap(), "a_b");
    let req = request("", "/a/b/c/d:e");
    assert_eq!(cid_from_request(&req).unwrap(), "d_e");
}

#[test]
fn empty_final_segment_is_rejected() {
    let req = request("", "abc/");
    assert_eq!(cid_from_request(&req).unwrap_err(), PullError::InvalidContainerId);
}

#[test]
fn accepted_ids_meet_the_invariant() {
    let accepted = [
        cid_from_request(&request("", "../abc")).unwrap(),
        cid_from_request(&request("", "prefix/a:b")).unwrap(),
        cid_from_request(&request("pod-sandbox.0_1", "")).unwrap(),
        cid_from_request(&request("", "registry.example/ns/img:1.2")).unwrap(),
    ];
    for id in &accepted {
        assert!(!id.is_empty());
        assert_ne!(id.as_str(), ".");
        assert_ne!(id.as_str(), "..");
        assert!(id.chars().all(|c| c.is_ascii_alphanumeric() || c == '.' || c == '_' || c == '-'));
    }
}

#[test]
fn verify_cid_rejects_dot_names_and_unsafe_characters() {
    assert!(!verify_cid(""));
    assert!(!verify_cid("."));
    assert!(!verify_cid(".."));
    assert!(!verify_cid("a/b"));
    assert!(!verify_cid("a:b"));
    assert!(!verify_cid("a b"));
    assert!(verify_cid("...")); // three dots name a normal directory
    assert!(verify_cid("A-z.0_9"));
}
