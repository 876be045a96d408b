use fetch_variant::error::FetchError;
use fetch_variant::target::{
    destination_path, image_target_name, leaves_directory, name_verdict, validate_target,
};

#[test]
fn target_of_a_variant() {
    assert_eq!(image_target_name("worker-x86_64"), "worker-x86_64.img.lz4");
    assert_eq!(image_target_name(""), ".img.lz4");
    assert_eq!(image_target_name("bottlerocket-aws-k8s-1.30-aarch64-1.2.3-abc"), "bottlerocket-aws-k8s-1.30-aarch64-1.2.3-abc.img.lz4");
}

#[test]
fn names_that_lead_out() {
    for name in ["..", "../x", "../../etc/passwd", "a/../b", "a/..", "/", "/etc/passwd", "a/b/../../../c", "\u{e9}/../x"] {
        assert!(leaves_directory(name), "{}", name);
    }
}

#[test]
fn names_that_stay_inside() {
    for name in ["", ".", "a", "a.img.lz4", "a/b", "a/./b", "..a", "a..", "a/..b", "a../b", "...", ".../x", "a/.../b", "..img.lz4", "\u{e9}t\u{e9}/..\u{e9}"] {
        assert!(!leaves_directory(name), "{}", name);
    }
}

#[test]
fn sound_names_pass() {
    assert_eq!(validate_target("worker-x86_64.img.lz4"), Ok(()));
    assert_eq!(validate_target("nested/dir/image.img.lz4"), Ok(()));
    assert_eq!(validate_target("a/./b"), Ok(()));
}

#[test]
fn traversal_is_refused_by_the_library() {
    assert_eq!(
        validate_target("../../etc/passwd"),
        Err(FetchError::TargetName {
            target: "../../etc/passwd".to_string(),
            cause: "the name leads out of the output directory".to_string(),
        })
    );
    assert_eq!(
        validate_target("/absolute.img.lz4"),
        Err(FetchError::TargetName {
            target: "/absolute.img.lz4".to_string(),
            cause: "the name leads out of the output directory".to_string(),
        })
    );
}

#[test]
fn names_refused_by_the_repository_rules() {
    for name in ["", ".", "./", "./."] {
        match validate_target(name) {
            Err(FetchError::TargetName { target, cause }) => {
                assert_eq!(target, name);
                assert_ne!(cause, name);
                assert_ne!(cause, "the name leads out of the output directory");
                assert!(cause.contains("unsafe"), "{}", cause);
            }
            other => panic!("{:?} was not refused: {:?}", name, other),
        }
    }
}

#[test]
fn verdict_for_each_pair_of_results() {
    assert_eq!(name_verdict("a", false, None), Ok(()));
    assert_eq!(
        name_verdict("a", false, Some("no".to_string())),
        Err(FetchError::TargetName { target: "a".to_string(), cause: "no".to_string() })
    );
    assert_eq!(
        name_verdict("a", true, None),
        Err(FetchError::TargetName {
            target: "a".to_string(),
            cause: "the name leads out of the output directory".to_string(),
        })
    );
    assert_eq!(
        name_verdict("a", true, Some("no".to_string())),
        Err(FetchError::TargetName {
            target: "a".to_string(),
            cause: "the name leads out of the output directory".to_string(),
        })
    );
}

#[test]
fn destination_is_the_name_inside_the_directory() {
    assert_eq!(destination_path("/images", "a.img.lz4"), "/images/a.img.lz4");
    assert_eq!(destination_path("/images/", "a.img.lz4"), "/images/a.img.lz4");
    assert_eq!(destination_path("", "a.img.lz4"), "a.img.lz4");
    assert_eq!(destination_path("out", "nested/a.img.lz4"), "out/nested/a.img.lz4");
    assert_eq!(destination_path("/", "a"), "/a");
    assert_eq!(destination_path("r\u{e9}pertoire", "a"), "r\u{e9}pertoire/a");
}

#[test]
fn destination_agrees_with_the_standard_join() {
    for outdir in ["", "/", "out", "out/", "/var/lib/images", "./rel/"] {
        for name in ["a.img.lz4", "nested/a.img.lz4", "a/./b", "..a"] {
            let expected = std::path::Path::new(outdir).join(name);
            assert_eq!(
                std::path::Path::new(&destination_path(outdir, name)),
                expected.as_path(),
                "{:?} {:?}",
                outdir,
                name
            );
            assert_eq!(destination_path(outdir, name), expected.to_str().unwrap());
        }
    }
}
