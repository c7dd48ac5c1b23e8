use hi_mipi::locate::{
    advance, climb, resolve_on, start, EnvOverrides, LocateError, LocateRequest, LocateState,
    LocateStep, SdkLocation, SdkTarget, Search, MAX_LOOKUPS,
};

const EV200_SUBPATH: &str = "vendor/mpp-lib-Hi3516EV200_V1.0.1.0";
const EV200_INCLUDE: &str = "/opt/hisi-linux/x86-arm/arm-himix100-linux/target/usr/include";

fn request(targets: &[SdkTarget], build_root: &str) -> LocateRequest {
    LocateRequest {
        targets: targets.to_vec(),
        build_triple: Some(String::from("armv7-unknown-linux-gnueabihf")),
        build_root: String::from(build_root),
        overrides: EnvOverrides { sdk_root: None, include_root: None },
    }
}

fn with_sdk_root(mut request: LocateRequest, root: &str) -> LocateRequest {
    request.overrides.sdk_root = Some(String::from(root));
    request
}

fn disk(paths: &[&str]) -> Vec<String> {
    paths.iter().map(|p| String::from(*p)).collect()
}

/// Runs the machine against a list of existing paths and records every probe.
fn drive(request: LocateRequest, existing: &[&str]) -> (Result<SdkLocation, LocateError>, Vec<String>) {
    let mut probes = Vec::new();
    let mut step = start(request);
    loop {
        match step {
            LocateStep::Done(outcome) => return (outcome, probes),
            LocateStep::Probe(state) => {
                let path = state.path();
                let exists = existing.contains(&path.as_str());
                probes.push(path);
                step = advance(state, exists);
            }
        }
    }
}

#[test]
fn no_target_is_refused_before_any_probe() {
    let (outcome, probes) = drive(request(&[], "/work/project"), &["/work/project"]);
    assert_eq!(outcome, Err(LocateError::NoTargetSelected));
    assert!(probes.is_empty());
    assert_eq!(
        start(request(&[], "/work")),
        LocateStep::Done(Err(LocateError::NoTargetSelected))
    );
}

#[test]
fn two_targets_are_refused_before_any_probe() {
    let both = [SdkTarget::Hi3516Ev200, SdkTarget::Hi3559Av100];
    let (outcome, probes) = drive(request(&both, "/work/project"), &[]);
    assert_eq!(outcome, Err(LocateError::AmbiguousTarget(2)));
    assert!(probes.is_empty());
    let three = [SdkTarget::Hi3516Ev200, SdkTarget::Hi3516Ev200, SdkTarget::Hi3531V100];
    let with_root = with_sdk_root(request(&three, "/work"), "/sdk");
    assert_eq!(resolve_on(with_root, &disk(&["/sdk"])), Err(LocateError::AmbiguousTarget(3)));
}

#[test]
fn unsupported_triple_is_refused_before_any_probe() {
    let mut req = with_sdk_root(request(&[SdkTarget::Hi3516Ev200], "/work"), "/sdk");
    req.build_triple = Some(String::from("x86_64-unknown-linux-gnu"));
    let (outcome, probes) = drive(req, &["/sdk"]);
    assert_eq!(
        outcome,
        Err(LocateError::UnsupportedTarget(String::from("x86_64-unknown-linux-gnu")))
    );
    assert!(probes.is_empty());
}

#[test]
fn selection_is_judged_before_the_triple() {
    let mut req = request(&[], "/work");
    req.build_triple = Some(String::from("x86_64-unknown-linux-gnu"));
    assert_eq!(resolve_on(req, &disk(&[])), Err(LocateError::NoTargetSelected));
}

#[test]
fn unknown_triple_is_accepted() {
    let mut req = with_sdk_root(request(&[SdkTarget::Hi3516Ev200], "/work"), "/sdk");
    req.build_triple = None;
    assert!(resolve_on(req, &disk(&["/sdk"])).is_ok());
    let mut other = with_sdk_root(request(&[SdkTarget::Hi3516Ev200], "/work"), "/sdk");
    other.build_triple = Some(String::from("x86_64-unknown-linux-musl"));
    assert!(resolve_on(other, &disk(&["/sdk"])).is_ok());
}

#[test]
fn missing_override_is_not_exists_and_nothing_is_searched() {
    let found_by_search = format!("/work/project/{}", EV200_SUBPATH);
    let existing = [found_by_search.as_str()];
    let req = with_sdk_root(request(&[SdkTarget::Hi3516Ev200], "/work/project"), "/no/such/sdk");
    let (outcome, probes) = drive(req, &existing);
    assert_eq!(outcome, Err(LocateError::NotExists(String::from("/no/such/sdk"))));
    assert_eq!(probes, vec![String::from("/no/such/sdk")]);
}

#[test]
fn existing_override_is_taken_verbatim() {
    let req = with_sdk_root(request(&[SdkTarget::Hi3531V100], "/work/project"), "/sdk/../sdk/");
    assert_eq!(
        resolve_on(req, &disk(&["/sdk/../sdk/"])),
        Ok(SdkLocation {
            sdk_root: String::from("/sdk/../sdk/"),
            system_include_root: String::from(
                "/opt/hisi-linux-nptl/arm-hisiv100-linux/target/usr/include"
            ),
        })
    );
}

#[test]
fn include_override_is_taken_verbatim() {
    let mut req = with_sdk_root(request(&[SdkTarget::Hi3559Av100], "/work"), "/sdk");
    req.overrides.include_root = Some(String::from("/my/include"));
    assert_eq!(
        resolve_on(req, &disk(&["/sdk"])),
        Ok(SdkLocation {
            sdk_root: String::from("/sdk"),
            system_include_root: String::from("/my/include"),
        })
    );
}

#[test]
fn defaults_of_each_target() {
    let ev200 = [
        SdkTarget::Hi3516Ev200,
        SdkTarget::Hi3516Ev300,
        SdkTarget::Hi3518Ev200,
        SdkTarget::Hi3518Ev300,
    ];
    for target in ev200 {
        assert_eq!(target.sdk_subpath(), Some(EV200_SUBPATH));
        assert_eq!(target.default_system_include(), Some(EV200_INCLUDE));
    }
    assert_eq!(SdkTarget::Hi3531V100.sdk_subpath(), Some("vendor/mpp-lib-Hi3531V100_V1.0.D.0"));
    assert_eq!(
        SdkTarget::Hi3531V100.default_system_include(),
        Some("/opt/hisi-linux-nptl/arm-hisiv100-linux/target/usr/include")
    );
    assert_eq!(SdkTarget::Hi3559Av100.sdk_subpath(), Some("vendor/mpp-lib-Hi3559AV100_V2.0.2.0"));
    assert_eq!(
        SdkTarget::Hi3559Av100.default_system_include(),
        Some("/opt/hisi-linux/x86-arm/aarch64-himix100-linux/aarch64-linux-gnu/sys-include")
    );
    assert_eq!(SdkTarget::Hi3519Av100.sdk_subpath(), None);
    assert_eq!(SdkTarget::Hi3519Av100.default_system_include(), None);
}

#[test]
fn target_without_defaults_resolves_with_both_overrides() {
    let mut req = with_sdk_root(request(&[SdkTarget::Hi3519Av100], "/work"), "/sdk");
    req.overrides.include_root = Some(String::from("/inc"));
    assert_eq!(
        resolve_on(req, &disk(&["/sdk"])),
        Ok(SdkLocation { sdk_root: String::from("/sdk"), system_include_root: String::from("/inc") })
    );
}

#[test]
fn subpath_under_the_build_root_is_found_first() {
    let here = format!("/a/b/c/{}", EV200_SUBPATH);
    let above = format!("/a/b/{}", EV200_SUBPATH);
    let (outcome, probes) =
        drive(request(&[SdkTarget::Hi3516Ev200], "/a/b/c"), &[here.as_str(), above.as_str()]);
    assert_eq!(
        outcome,
        Ok(SdkLocation { sdk_root: here.clone(), system_include_root: String::from(EV200_INCLUDE) })
    );
    assert_eq!(probes, vec![here.clone(), here]);
}

#[test]
fn ancestor_at_depth_three_wins_over_those_further_up() {
    let at_three = format!("/r/a/b/{}", EV200_SUBPATH);
    let at_four = format!("/r/a/{}", EV200_SUBPATH);
    let at_five = format!("/r/{}", EV200_SUBPATH);
    let existing = [at_five.as_str(), at_three.as_str(), at_four.as_str()];
    let (outcome, probes) = drive(request(&[SdkTarget::Hi3518Ev300], "/r/a/b/c/d/e"), &existing);
    assert_eq!(
        outcome,
        Ok(SdkLocation {
            sdk_root: at_three.clone(),
            system_include_root: String::from(EV200_INCLUDE)
        })
    );
    assert_eq!(
        probes,
        vec![
            format!("/r/a/b/c/d/e/{}", EV200_SUBPATH),
            format!("/r/a/b/c/d/{}", EV200_SUBPATH),
            format!("/r/a/b/c/{}", EV200_SUBPATH),
            at_three.clone(),
            at_three.clone(),
        ]
    );
    let listed: Vec<String> = existing.iter().map(|p| String::from(*p)).collect();
    assert_eq!(
        resolve_on(request(&[SdkTarget::Hi3518Ev300], "/r/a/b/c/d/e"), &listed),
        Ok(SdkLocation { sdk_root: at_three, system_include_root: String::from(EV200_INCLUDE) })
    );
}

#[test]
fn search_makes_nine_lookups_at_most() {
    assert_eq!(MAX_LOOKUPS, 9);
    let root = "/1/2/3/4/5/6/7/8/9/10/11/12";
    let subpath = "vendor/mpp-lib-Hi3559AV100_V2.0.2.0";
    let (outcome, probes) = drive(request(&[SdkTarget::Hi3559Av100], root), &[]);
    assert_eq!(outcome, Err(LocateError::NotFound(String::from(subpath))));
    assert_eq!(probes.len(), 9);
    assert_eq!(probes[0], format!("{}/{}", root, subpath));
    assert_eq!(probes[8], format!("/1/2/3/4/{}", subpath));

    let ninth = format!("/1/2/3/4/{}", subpath);
    let (outcome, probes) = drive(request(&[SdkTarget::Hi3559Av100], root), &[ninth.as_str()]);
    assert_eq!(
        outcome,
        Ok(SdkLocation {
            sdk_root: ninth,
            system_include_root: String::from(
                "/opt/hisi-linux/x86-arm/aarch64-himix100-linux/aarch64-linux-gnu/sys-include"
            ),
        })
    );
    assert_eq!(probes.len(), 10);

    let tenth = format!("/1/2/3/{}", subpath);
    let (outcome, probes) = drive(request(&[SdkTarget::Hi3559Av100], root), &[tenth.as_str()]);
    assert_eq!(outcome, Err(LocateError::NotFound(String::from(subpath))));
    assert_eq!(probes.len(), 9);
    assert_eq!(
        resolve_on(request(&[SdkTarget::Hi3559Av100], root), &disk(&[tenth.as_str()])),
        Err(LocateError::NotFound(String::from(subpath)))
    );
}

#[test]
fn search_ends_at_the_top_directory() {
    let (outcome, probes) = drive(request(&[SdkTarget::Hi3516Ev200], "/a/b"), &[]);
    assert_eq!(outcome, Err(LocateError::NotFound(String::from(EV200_SUBPATH))));
    assert_eq!(
        probes,
        vec![
            format!("/a/b/{}", EV200_SUBPATH),
            format!("/a/{}", EV200_SUBPATH),
            format!("/{}", EV200_SUBPATH),
        ]
    );
}

#[test]
fn found_path_that_vanished_is_not_exists() {
    let search = Search {
        base: String::from("/a"),
        subpath: String::from("vendor/sdk"),
        lookups: 1,
        include_root: String::from("/inc"),
    };
    let step = advance(LocateState::Searching(search), true);
    let confirming = LocateState::Confirming(SdkLocation {
        sdk_root: String::from("/a/vendor/sdk"),
        system_include_root: String::from("/inc"),
    });
    assert_eq!(step, LocateStep::Probe(confirming.clone()));
    assert_eq!(confirming.path(), "/a/vendor/sdk");
    assert_eq!(
        advance(confirming, false),
        LocateStep::Done(Err(LocateError::NotExists(String::from("/a/vendor/sdk"))))
    );
}

#[test]
fn a_miss_moves_the_search_one_directory_up() {
    let search = Search {
        base: String::from("/a/b"),
        subpath: String::from("vendor/sdk"),
        lookups: 4,
        include_root: String::from("/inc"),
    };
    let state = LocateState::Searching(search);
    assert_eq!(state.path(), "/a/b/vendor/sdk");
    let expected = Search {
        base: String::from("/a"),
        subpath: String::from("vendor/sdk"),
        lookups: 5,
        include_root: String::from("/inc"),
    };
    assert_eq!(advance(state, false), LocateStep::Probe(LocateState::Searching(expected)));
}

#[test]
fn climb_stops_at_the_bound_and_at_the_top() {
    let search = |lookups: u8| Search {
        base: String::from("/a/b"),
        subpath: String::from("vendor/sdk"),
        lookups,
        include_root: String::from("/inc"),
    };
    let not_found = LocateStep::Done(Err(LocateError::NotFound(String::from("vendor/sdk"))));
    assert_eq!(climb(search(9), Some(String::from("/a"))), not_found);
    assert_eq!(climb(search(200), Some(String::from("/a"))), not_found);
    assert_eq!(climb(search(3), None), not_found);
    let next = Search {
        base: String::from("/elsewhere"),
        subpath: String::from("vendor/sdk"),
        lookups: 9,
        include_root: String::from("/inc"),
    };
    assert_eq!(
        climb(search(8), Some(String::from("/elsewhere"))),
        LocateStep::Probe(LocateState::Searching(next))
    );
}

#[test]
fn search_arguments_name_both_header_directories() {
    let location = SdkLocation {
        sdk_root: String::from("/work/vendor/mpp"),
        system_include_root: String::from("/opt/toolchain/usr/include"),
    };
    assert_eq!(
        location.search_args(),
        vec![
            String::from("-I/work/vendor/mpp/include"),
            String::from("-I/opt/toolchain/usr/include")
        ]
    );
    assert_eq!(location.library_dir(), "/work/vendor/mpp/lib");
}
