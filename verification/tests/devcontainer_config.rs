use opencode_container::devcontainer::{
    container_env, devcontainer_config, devcontainer_exec_args, devcontainer_run_args,
    devcontainer_stop_args, devcontainer_up_args, merge_features,
};
use opencode_container::json::Json;

fn strings(items: &[&str]) -> Vec<String> {
    items.iter().map(|s| s.to_string()).collect()
}

fn pairs(es: &[(String, String)]) -> Vec<(&str, &str)> {
    es.iter().map(|(k, v)| (k.as_str(), v.as_str())).collect()
}

fn obj(entries: Vec<(&str, Json)>) -> Json {
    Json::Object(entries.into_iter().map(|(k, v)| (k.to_string(), v)).collect())
}

fn field<'a>(j: &'a Json, key: &str) -> Option<&'a Json> {
    match j {
        Json::Object(es) => es.iter().rev().find(|(k, _)| k == key).map(|(_, v)| v),
        _ => None,
    }
}

fn as_str(j: &Json) -> &str {
    match j {
        Json::Str(s) => s,
        other => panic!("not a string: {:?}", other),
    }
}

#[test]
fn env_settings_merge_in_order() {
    let es = container_env(false, &strings(&["A=1", "NOEQ", "B=x=y", "A=2"]), &strings(&["HOME"]));
    assert_eq!(
        pairs(&es),
        vec![
            ("OPENCODE_DISABLE_DEFAULT_PLUGINS", "true"),
            ("A", "2"),
            ("B", "x=y"),
            ("HOME", "${localEnv:HOME}"),
        ]
    );
    let es = container_env(true, &strings(&["OPENCODE_DISABLE_DEFAULT_PLUGINS=false"]), &strings(&[]));
    assert_eq!(
        pairs(&es),
        vec![("OPENCODE_DISABLE_DEFAULT_PLUGINS", "false"), ("OPENCODE_NO_GIT_INIT", "1")]
    );
}

#[test]
fn later_feature_file_overrides() {
    let mut merged: Vec<(String, Json)> = Vec::new();
    merge_features(
        &mut merged,
        obj(vec![(
            "features",
            obj(vec![("a", Json::Number("1".to_string())), ("b", Json::Bool(true))]),
        )]),
    );
    merge_features(
        &mut merged,
        obj(vec![
            ("name", Json::Str("x".to_string())),
            ("features", obj(vec![("b", Json::Bool(false)), ("c", Json::Null)])),
        ]),
    );
    let keys: Vec<&str> = merged.iter().map(|(k, _)| k.as_str()).collect();
    assert_eq!(keys, vec!["a", "b", "c"]);
    assert!(matches!(merged[1].1, Json::Bool(false)));
    assert!(matches!(&merged[0].1, Json::Number(n) if n == "1"));
}

#[test]
fn files_without_feature_objects_add_nothing() {
    let mut merged: Vec<(String, Json)> = Vec::new();
    merge_features(&mut merged, Json::Array(vec![]));
    merge_features(&mut merged, obj(vec![("features", Json::Str("x".to_string()))]));
    merge_features(&mut merged, obj(vec![("other", obj(vec![]))]));
    assert!(merged.is_empty());
}

#[test]
fn run_args_of_devcontainer() {
    assert_eq!(
        devcontainer_run_args("L2Fi", &strings(&["/p/.env"]), Some((4097, 4096))),
        strings(&["--label=opencode.project.id=L2Fi", "--init", "--env-file=/p/.env", "--init", "-p=4097:4096"])
    );
    assert_eq!(
        devcontainer_run_args("L2Fi", &[], None),
        strings(&["--label=opencode.project.id=L2Fi", "--init", "--init"])
    );
}

#[test]
fn config_without_features_omits_the_key() {
    let env = container_env(false, &[], &[]);
    let cfg = devcontainer_config("L2Fi", "/d", "/c", "/ab", None, &[], &[], &env, Vec::new());
    assert!(field(&cfg, "features").is_none());
    assert_eq!(as_str(field(&cfg, "image").unwrap()), "localhost/opencode-container");
    assert_eq!(as_str(field(&cfg, "remoteUser").unwrap()), "node");
    assert!(matches!(field(&cfg, "overrideCommand"), Some(Json::Bool(false))));
    assert!(matches!(field(&cfg, "forwardPorts"), Some(Json::Array(v)) if v.is_empty()));
    match field(&cfg, "mounts") {
        Some(Json::Array(ms)) => {
            assert_eq!(ms.len(), 3);
            assert_eq!(as_str(field(&ms[2], "source").unwrap()), "/ab");
            assert_eq!(as_str(field(&ms[2], "target").unwrap()), "/code");
            assert_eq!(as_str(field(&ms[0], "type").unwrap()), "bind");
        },
        other => panic!("{:?}", other),
    }
    match field(&cfg, "containerEnv") {
        Some(Json::Object(es)) => {
            assert_eq!(es.len(), 1);
            assert_eq!(as_str(&es[0].1), "true");
        },
        other => panic!("{:?}", other),
    }
}

#[test]
fn config_with_web_and_features() {
    let env = container_env(true, &strings(&["K=v"]), &[]);
    let features = vec![("ghcr.io/devcontainers/features/common-utils:2".to_string(), obj(vec![]))];
    let oc = strings(&["web", "--hostname", "0.0.0.0", "--port", "4096"]);
    let cfg = devcontainer_config("L2Fi", "/d", "/c", "/ab", Some(4097), &oc, &[], &env, features);
    match field(&cfg, "features") {
        Some(Json::Object(es)) => assert_eq!(es[0].0, "ghcr.io/devcontainers/features/common-utils:2"),
        other => panic!("{:?}", other),
    }
    match field(&cfg, "forwardPorts") {
        Some(Json::Array(v)) => assert!(matches!(&v[0], Json::Number(n) if n == "4096")),
        other => panic!("{:?}", other),
    }
    match field(&cfg, "runArgs") {
        Some(Json::Array(v)) => assert_eq!(as_str(&v[v.len() - 1]), "-p=4097:4096"),
        other => panic!("{:?}", other),
    }
}

#[test]
fn devcontainer_cli_args() {
    let prefix = strings(&["--yes", "@devcontainers/cli"]);
    assert_eq!(
        devcontainer_up_args(&prefix, "/ab", "/cache/devcontainer.json"),
        strings(&[
            "--yes", "@devcontainers/cli", "up", "--docker-path", "podman", "--workspace-folder",
            "/ab", "--config", "/cache/devcontainer.json", "--remove-existing-container"
        ])
    );
    assert_eq!(
        devcontainer_exec_args(&[], "/ab", "/j", &strings(&["web"])),
        strings(&["exec", "--docker-path", "podman", "--workspace-folder", "/ab", "--config", "/j", "opencode", "web"])
    );
    assert_eq!(
        devcontainer_stop_args(&[], "/ab", "/j"),
        strings(&["stop", "--docker-path", "podman", "--workspace-folder", "/ab", "--config", "/j"])
    );
}
