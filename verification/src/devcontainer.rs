//! The devcontainer path (`--feature-file`): the environment, run arguments
//! and feature set of the generated `devcontainer.json`, the document itself,
//! and the devcontainer CLI commands that use it.

use vstd::prelude::*;
use crate::text::{concat3, split_once_char, split_once_spec, decimal, u16_to_decimal, str_eq};
use crate::util::{arg_views, requested_port_of};
use crate::entries::{pairs_view, insert_all, insert_entry, set_entry, lookup, key_index, unique_keys,
    insert_entry_unique, lookup_insert_all};
use crate::json::{Json, JsonView, str_array, str_object, object, array, string_array, string_object,
    entry_views_are_pairs};
use crate::container::{base_container_args, push_arg, extend_prefixed, extend_args, label_arg, prefixed, port_mapping,
    port_mapping_arg, image_name, container_port};

verus! {

broadcast use vstd::string::group_string_axioms;

/// The setting of a `--env VAR=value` entry: the text before and after its
/// first `=`; an entry without `=` sets nothing.
pub open spec fn env_settings(env: Seq<Seq<char>>) -> Seq<(Seq<char>, Seq<char>)>
    decreases env.len(),
{
    if env.len() == 0 {
        Seq::empty()
    } else {
        let rest = env_settings(env.drop_last());
        match split_once_spec(env.last(), '=') {
            Some(p) => rest.push(p),
            None => rest,
        }
    }
}

/// The setting of each `--local-env VAR`: a reference `${localEnv:VAR}` that
/// the devcontainer CLI resolves on the host.
pub open spec fn local_env_settings(names: Seq<Seq<char>>) -> Seq<(Seq<char>, Seq<char>)> {
    names.map_values(|n: Seq<char>| (n, "${localEnv:"@ + n + "}"@))
}

/// The settings of `containerEnv`, in the order they are applied: default
/// plugins off, no git init when asked, then `--env`, then `--local-env`.
pub open spec fn env_sequence(no_git_init: bool, env: Seq<Seq<char>>, local: Seq<Seq<char>>) -> Seq<(Seq<char>, Seq<char>)> {
    seq![("OPENCODE_DISABLE_DEFAULT_PLUGINS"@, "true"@)] + (if no_git_init {
        seq![("OPENCODE_NO_GIT_INIT"@, "1"@)]
    } else {
        Seq::empty()
    }) + env_settings(env) + local_env_settings(local)
}

/// The `containerEnv` entries: the settings applied in order, a later one
/// replacing the value of an earlier one with the same name.
pub open spec fn container_env_spec(no_git_init: bool, env: Seq<Seq<char>>, local: Seq<Seq<char>>) -> Seq<(Seq<char>, Seq<char>)> {
    insert_all(Seq::empty(), env_sequence(no_git_init, env, local))
}

fn set_env(es: &mut Vec<(String, String)>, k: String, v: String)
    requires
        unique_keys(pairs_view(old(es)@)),
    ensures
        pairs_view(final(es)@) == insert_entry(pairs_view(old(es)@), k@, v@),
        unique_keys(pairs_view(final(es)@)),
{
    let ghost before = pairs_view(es@);
    set_entry(es, k, v);
    proof {
        insert_entry_unique(before, k@, v@);
    }
}

/// The `containerEnv` of the generated config. Every value is a string (the
/// devcontainer CLI fails on other values) and every name occurs once.
pub fn container_env(no_git_init: bool, env: &[String], local_env: &[String]) -> (r: Vec<(String, String)>)
    ensures
        pairs_view(r@) == container_env_spec(no_git_init, arg_views(env@), arg_views(local_env@)),
        unique_keys(pairs_view(r@)),
{
    let ghost all = env_sequence(no_git_init, arg_views(env@), arg_views(local_env@));
    let ghost first = seq![("OPENCODE_DISABLE_DEFAULT_PLUGINS"@, "true"@)] + (if no_git_init {
        seq![("OPENCODE_NO_GIT_INIT"@, "1"@)]
    } else {
        Seq::empty()
    });
    let ghost a = seq![("OPENCODE_DISABLE_DEFAULT_PLUGINS"@, "true"@)];
    let mut es: Vec<(String, String)> = Vec::new();
    assert(pairs_view(es@) =~= Seq::<(Seq<char>, Seq<char>)>::empty());
    set_env(&mut es, "OPENCODE_DISABLE_DEFAULT_PLUGINS".to_string(), "true".to_string());
    assert(a.drop_last() =~= Seq::<(Seq<char>, Seq<char>)>::empty());
    assert(insert_all(Seq::<(Seq<char>, Seq<char>)>::empty(), a.drop_last()) == Seq::<(Seq<char>, Seq<char>)>::empty());
    assert(pairs_view(es@) == insert_all(Seq::empty(), a));
    if no_git_init {
        set_env(&mut es, "OPENCODE_NO_GIT_INIT".to_string(), "1".to_string());
        assert(first.drop_last() =~= a);
    } else {
        assert(first =~= a);
    }
    assert(pairs_view(es@) == insert_all(Seq::empty(), first));
    assert(first + env_settings(arg_views(env@).take(0)) =~= first);
    // --env entries
    let n = env.len();
    let mut i: usize = 0;
    while i < n
        invariant
            n == env@.len(),
            i <= n,
            unique_keys(pairs_view(es@)),
            pairs_view(es@) == insert_all(Seq::empty(), first + env_settings(arg_views(env@).take(i as int))),
        decreases n - i,
    {
        let ghost pre = arg_views(env@).take(i as int);
        assert(arg_views(env@).take(i + 1).drop_last() =~= pre);
        let ghost before = pairs_view(es@);
        match split_once_char(env[i].as_str(), '=') {
            Some((k, v)) => {
                let ghost kv = (k@, v@);
                set_env(&mut es, k, v);
                proof {
                    let xs = first + env_settings(pre);
                    assert((first + env_settings(pre).push(kv)).drop_last() =~= xs);
                }
            },
            None => {},
        }
        i = i + 1;
    }
    assert(arg_views(env@).take(n as int) =~= arg_views(env@));
    // --local-env entries
    let ghost after_env = first + env_settings(arg_views(env@));
    let m = local_env.len();
    let mut j: usize = 0;
    while j < m
        invariant
            m == local_env@.len(),
            j <= m,
            unique_keys(pairs_view(es@)),
            pairs_view(es@) == insert_all(Seq::empty(), after_env + local_env_settings(arg_views(local_env@).take(j as int))),
        decreases m - j,
    {
        let ghost pre = local_env_settings(arg_views(local_env@).take(j as int));
        let name = local_env[j].clone();
        let value = concat3("${localEnv:", local_env[j].as_str(), "}");
        let ghost kv = (name@, value@);
        set_env(&mut es, name, value);
        j = j + 1;
        proof {
            assert(local_env_settings(arg_views(local_env@).take(j as int)) =~= pre.push(kv));
            assert((after_env + pre.push(kv)).drop_last() =~= after_env + pre);
        }
    }
    assert(arg_views(local_env@).take(m as int) =~= arg_views(local_env@));
    assert(after_env + local_env_settings(arg_views(local_env@)) =~= all);
    es
}

/// The features that a feature file contributes: the entries of its
/// top-level `features` object; none when the file is not an object or has
/// no `features` object.
pub open spec fn feature_entries(doc: JsonView) -> Seq<(Seq<char>, JsonView)> {
    match doc {
        JsonView::Object(es) => match lookup(es, "features"@) {
            Some(JsonView::Object(fs)) => fs,
            _ => Seq::empty(),
        },
        _ => Seq::empty(),
    }
}

/// The values in reverse order.
fn reversed<T>(v: Vec<T>) -> (r: Vec<T>)
    ensures
        r@ == v@.reverse(),
{
    let mut v = v;
    let mut r: Vec<T> = Vec::new();
    let ghost orig = v@;
    while v.len() > 0
        invariant
            orig == v@ + r@.reverse(),
        decreases v@.len(),
    {
        let ghost before_r = r@;
        let ghost before_v = v@;
        let x = v.pop().unwrap();
        r.push(x);
        assert(r@.reverse() =~= seq![x] + before_r.reverse());
        assert(before_v =~= v@.push(x));
        assert(orig =~= v@ + r@.reverse());
    }
    assert(orig =~= r@.reverse());
    assert(r@ =~= orig.reverse());
    r
}

/// Merges the features of one feature file into `merged`: each of its
/// features is set in order, replacing the options of a feature of the same
/// name.
pub fn merge_features(merged: &mut Vec<(String, Json)>, doc: Json)
    ensures
        pairs_view(final(merged)@) == insert_all(pairs_view(old(merged)@), feature_entries(doc@)),
        unique_keys(pairs_view(old(merged)@)) ==> unique_keys(pairs_view(final(merged)@)),
{
    let ghost start = pairs_view(merged@);
    let ghost dv = doc@;
    match doc {
        Json::Object(es) => {
            let ghost ev = Json::entry_views(es@);
            proof {
                entry_views_are_pairs(es@);
                crate::entries::key_index_props(ev, "features"@);
            }
            let mut es = es;
            let mut i: usize = es.len();
            let mut found: Option<usize> = None;
            while i > 0
                invariant_except_break
                    found is None,
                invariant
                    i <= es@.len(),
                    ev == pairs_view(es@),
                    key_index(ev, "features"@) < i,
                    forall|j: int| i <= j < es@.len() ==> ev[j].0 != "features"@,
                    -1 <= key_index(ev, "features"@),
                    key_index(ev, "features"@) >= 0 ==> ev[key_index(ev, "features"@)].0 == "features"@,
                    forall|j: int| key_index(ev, "features"@) < j < ev.len() ==> ev[j].0 != "features"@,
                ensures
                    found is None ==> i == 0,
                    found matches Some(x) ==> x + 1 == i && x < es@.len() && ev[x as int].0 == "features"@,
                decreases i,
            {
                if str_eq(es[i - 1].0.as_str(), "features") {
                    assert(ev[i - 1].0 == es@[i - 1].0@);
                    found = Some(i - 1);
                    break;
                }
                i = i - 1;
            }
            match found {
                Some(idx) => {
                    assert(key_index(ev, "features"@) == idx);
                    let entry = es.remove(idx);
                    assert(entry.1@ == ev[idx as int].1);
                    match entry.1 {
                        Json::Object(fs) => {
                            proof {
                                entry_views_are_pairs(fs@);
                            }
                            let ghost fv = pairs_view(fs@);
                            assert(feature_entries(dv) == fv);
                            let mut rest = reversed(fs);
                            let ghost mut done: int = 0;
                            while rest.len() > 0
                                invariant
                                    0 <= done <= fv.len(),
                                    pairs_view(rest@.reverse()) == fv.skip(done),
                                    pairs_view(merged@) == insert_all(start, fv.take(done)),
                                    unique_keys(start) ==> unique_keys(pairs_view(merged@)),
                                decreases rest@.len(),
                            {
                                let ghost before = rest@;
                                let (k, v) = rest.pop().unwrap();
                                proof {
                                    assert(before =~= rest@.push((k, v)));
                                    assert(before.reverse() =~= seq![(k, v)] + rest@.reverse());
                                    assert(before.reverse()[0] == (k, v));
                                    assert(pairs_view(before.reverse())[0] == (k@, v@));
                                    assert(pairs_view(before.reverse())[0] == fv.skip(done)[0]);
                                    assert(fv.skip(done).len() == before.len());
                                    assert(done < fv.len());
                                    assert(fv.skip(done)[0] == fv[done]);
                                    assert(fv[done] == (k@, v@));
                                    assert(pairs_view(rest@.reverse()) =~= fv.skip(done + 1)) by {
                                        assert(pairs_view(rest@.reverse()) =~= pairs_view(before.reverse()).drop_first());
                                    }
                                    assert(fv.take(done + 1).drop_last() =~= fv.take(done));
                                }
                                let ghost kv = k@;
                                let ghost vv = v@;
                                let ghost prev = pairs_view(merged@);
                                set_entry(merged, k, v);
                                proof {
                                    if unique_keys(start) {
                                        insert_entry_unique(prev, kv, vv);
                                    }
                                    done = done + 1;
                                }
                            }
                            assert(done == fv.len()) by {
                                assert(fv.skip(done).len() == 0);
                            }
                            assert(fv.take(done) =~= fv);
                        },
                        _ => {
                            assert(feature_entries(dv) =~= Seq::<(Seq<char>, JsonView)>::empty());
                        },
                    }
                },
                None => {
                    assert(key_index(ev, "features"@) < 0);
                    assert(feature_entries(dv) =~= Seq::<(Seq<char>, JsonView)>::empty());
                },
            }
        },
        _ => {
            assert(feature_entries(dv) =~= Seq::<(Seq<char>, JsonView)>::empty());
        },
    }
}

/// Feature files merged one after another: a feature named by the later
/// file has the options that file gives it (its last entry for that name);
/// any other feature keeps what the earlier files gave it.
pub proof fn later_feature_file_overrides(
    merged: Seq<(Seq<char>, JsonView)>,
    earlier: JsonView,
    later: JsonView,
    name: Seq<char>,
)
    ensures
        ({
            let after = insert_all(insert_all(merged, feature_entries(earlier)), feature_entries(later));
            let fl = feature_entries(later);
            lookup(after, name) == if key_index(fl, name) >= 0 {
                Some(fl[key_index(fl, name)].1)
            } else {
                lookup(insert_all(merged, feature_entries(earlier)), name)
            }
        }),
{
    lookup_insert_all(insert_all(merged, feature_entries(earlier)), feature_entries(later), name);
}

/// The `runArgs` of the generated config: the project label and an init
/// process, an `--env-file` for each env file, `--init` again, and in web
/// mode the server's container port published on the free host port
/// (`web` is the pair host port, container port).
pub open spec fn devcontainer_run_args_spec(id: Seq<char>, env_files: Seq<Seq<char>>, web: Option<(u16, u16)>) -> Seq<Seq<char>> {
    seq![label_arg(id), "--init"@] + prefixed("--env-file="@, env_files) + seq!["--init"@] + match web {
        Some((h, c)) => seq![port_mapping(h, c)],
        None => Seq::empty(),
    }
}

/// The `runArgs` of the generated config.
pub fn devcontainer_run_args(project_id: &str, env_files: &[String], web: Option<(u16, u16)>) -> (r: Vec<String>)
    ensures
        arg_views(r@) == devcontainer_run_args_spec(project_id@, arg_views(env_files@), web),
{
    let mut out: Vec<String> = Vec::new();
    push_arg(&mut out, crate::text::concat2("--label=opencode.project.id=", project_id));
    push_arg(&mut out, "--init".to_string());
    extend_prefixed(&mut out, "--env-file=", env_files);
    push_arg(&mut out, "--init".to_string());
    match web {
        Some((h, c)) => {
            push_arg(&mut out, port_mapping_arg(h, c));
        },
        None => {},
    }
    assert(arg_views(out@) =~= devcontainer_run_args_spec(project_id@, arg_views(env_files@), web));
    out
}

/// A bind mount of `source` at `target` in the container.
pub open spec fn bind_mount(source: Seq<char>, target: Seq<char>) -> JsonView {
    JsonView::Object(seq![
        ("source"@, JsonView::Str(source)),
        ("target"@, JsonView::Str(target)),
        ("type"@, JsonView::Str("bind"@)),
    ])
}

/// The generated `devcontainer.json`. `web` is, in web mode, the port the
/// server listens on in the container (forwarded, and published) and the
/// host port found free (where it is published). The `features` key
/// is present only when some feature was merged: some versions of the
/// devcontainer CLI fail on an empty features object.
pub open spec fn devcontainer_config_spec(
    id: Seq<char>,
    data: Seq<char>,
    config: Seq<char>,
    code: Seq<char>,
    web: Option<(u16, u16)>,
    env_files: Seq<Seq<char>>,
    env: Seq<(Seq<char>, Seq<char>)>,
    features: Seq<(Seq<char>, JsonView)>,
) -> JsonView {
    JsonView::Object(seq![
        ("name"@, JsonView::Str("opencode-container"@)),
        ("image"@, JsonView::Str(image_name())),
        ("build"@, JsonView::Object(seq![("options"@, str_array(seq!["--progress=plain"@]))])),
        ("forwardPorts"@, JsonView::Array(match web {
            Some((container, _)) => seq![JsonView::Number(decimal(container as nat))],
            None => Seq::empty(),
        })),
        ("containerEnv"@, str_object(env)),
        ("mounts"@, JsonView::Array(seq![
            bind_mount(data, "/home/node/.local/share/opencode"@),
            bind_mount(config, "/home/node/.config/opencode"@),
            bind_mount(code, "/code"@),
        ])),
        ("runArgs"@, str_array(devcontainer_run_args_spec(id, env_files, match web {
            Some((container, host)) => Some((host, container)),
            None => None,
        }))),
        ("overrideCommand"@, JsonView::Bool(false)),
        ("remoteUser"@, JsonView::Str("node"@)),
    ] + if features.len() > 0 {
        seq![("features"@, JsonView::Object(features))]
    } else {
        Seq::empty()
    })
}

fn jstr(s: &str) -> (r: Json)
    ensures
        r@ == JsonView::Str(s@),
{
    Json::Str(s.to_string())
}

fn bind_mount_json(source: &str, target: &str) -> (r: Json)
    ensures
        r@ == bind_mount(source@, target@),
{
    let es = vec![
        ("source".to_string(), jstr(source)),
        ("target".to_string(), jstr(target)),
        ("type".to_string(), jstr("bind")),
    ];
    let r = object(es);
    assert(r@ == bind_mount(source@, target@)) by {
        assert(pairs_view(es@) =~= seq![
            ("source"@, JsonView::Str(source@)),
            ("target"@, JsonView::Str(target@)),
            ("type"@, JsonView::Str("bind"@)),
        ]);
    }
    r
}

/// Builds the `devcontainer.json` document for opencode run with
/// `opencode_args`; in web mode `host_port` is the host port found free. The
/// container port that is forwarded and published is the `--port` that
/// opencode is given.
pub fn devcontainer_config(
    project_id: &str,
    data_dir: &str,
    config_dir: &str,
    code_dir: &str,
    host_port: Option<u16>,
    opencode_args: &[String],
    env_files: &[String],
    container_env: &[(String, String)],
    features: Vec<(String, Json)>,
) -> (r: Json)
    ensures
        r@ == devcontainer_config_spec(
            project_id@,
            data_dir@,
            config_dir@,
            code_dir@,
            match host_port {
                Some(h) => Some((container_port(h, arg_views(opencode_args@)), h)),
                None => None,
            },
            arg_views(env_files@),
            pairs_view(container_env@),
            pairs_view(features@),
        ),
{
    let web = match host_port {
        Some(h) => {
            let c = match requested_port_of(opencode_args) {
                Some(c) => c,
                None => h,
            };
            Some((c, h))
        },
        None => None,
    };
    build_config(project_id, data_dir, config_dir, code_dir, web, env_files, container_env, features)
}

fn build_config(
    project_id: &str,
    data_dir: &str,
    config_dir: &str,
    code_dir: &str,
    web: Option<(u16, u16)>,
    env_files: &[String],
    container_env: &[(String, String)],
    features: Vec<(String, Json)>,
) -> (r: Json)
    ensures
        r@ == devcontainer_config_spec(
            project_id@,
            data_dir@,
            config_dir@,
            code_dir@,
            web,
            arg_views(env_files@),
            pairs_view(container_env@),
            pairs_view(features@),
        ),
{
    let build_options = vec!["--progress=plain".to_string()];
    let options = string_array(&build_options);
    assert(arg_views(build_options@) =~= seq!["--progress=plain"@]);
    let build_entries = vec![("options".to_string(), options)];
    assert(pairs_view(build_entries@) =~= seq![("options"@, str_array(seq!["--progress=plain"@]))]);
    let build = object(build_entries);
    let ghost build_view = JsonView::Object(seq![("options"@, str_array(seq!["--progress=plain"@]))]);
    let forward: Vec<Json> = match web {
        Some((container, _)) => vec![Json::Number(u16_to_decimal(container))],
        None => Vec::new(),
    };
    let forward_json = array(forward);
    let ghost forward_view = JsonView::Array(match web {
        Some((container, _)) => seq![JsonView::Number(decimal(container as nat))],
        None => Seq::empty(),
    });
    assert(forward_json@ == forward_view) by {
        assert(forward@.map_values(|x: Json| x@) =~= match web {
            Some((container, _)) => seq![JsonView::Number(decimal(container as nat))],
            None => Seq::<JsonView>::empty(),
        });
    }
    let env_json = string_object(container_env);
    let m1 = bind_mount_json(data_dir, "/home/node/.local/share/opencode");
    let m2 = bind_mount_json(config_dir, "/home/node/.config/opencode");
    let m3 = bind_mount_json(code_dir, "/code");
    let mounts = vec![m1, m2, m3];
    let ghost mounts_view = seq![m1@, m2@, m3@];
    assert(mounts@.map_values(|x: Json| x@) =~= mounts_view);
    let mounts_json = array(mounts);
    let free = match web {
        Some((c, h)) => Some((h, c)),
        None => None,
    };
    let run_args = devcontainer_run_args(project_id, env_files, free);
    let run_args_json = string_array(&run_args);
    let has_features = features.len() > 0;
    let ghost fview = pairs_view(features@);
    let mut es: Vec<(String, Json)> = vec![
        ("name".to_string(), jstr("opencode-container")),
        ("image".to_string(), jstr("localhost/opencode-container")),
        ("build".to_string(), build),
        ("forwardPorts".to_string(), forward_json),
        ("containerEnv".to_string(), env_json),
        ("mounts".to_string(), mounts_json),
        ("runArgs".to_string(), run_args_json),
        ("overrideCommand".to_string(), Json::Bool(false)),
        ("remoteUser".to_string(), jstr("node")),
    ];
    let ghost fixed = pairs_view(es@);
    if has_features {
        let fj = object(features);
        let ghost before = es@;
        es.push(("features".to_string(), fj));
        assert(pairs_view(es@) =~= pairs_view(before).push(("features"@, JsonView::Object(fview))));
    } else {
        assert(fview.len() == 0);
    }
    let r = object(es);
    assert(r@ == devcontainer_config_spec(
        project_id@,
        data_dir@,
        config_dir@,
        code_dir@,
        web,
        arg_views(env_files@),
        pairs_view(container_env@),
        fview,
    )) by {
        let lit = seq![
            ("name"@, JsonView::Str("opencode-container"@)),
            ("image"@, JsonView::Str(image_name())),
            ("build"@, build_view),
            ("forwardPorts"@, forward_view),
            ("containerEnv"@, str_object(pairs_view(container_env@))),
            ("mounts"@, JsonView::Array(mounts_view)),
            ("runArgs"@, str_array(devcontainer_run_args_spec(project_id@, arg_views(env_files@), free))),
            ("overrideCommand"@, JsonView::Bool(false)),
            ("remoteUser"@, JsonView::Str("node"@)),
        ];
        let ext = if fview.len() > 0 {
            seq![("features"@, JsonView::Object(fview))]
        } else {
            Seq::empty()
        };
        assert(fixed =~= lit);
        let expected = devcontainer_config_spec(
            project_id@,
            data_dir@,
            config_dir@,
            code_dir@,
            web,
            arg_views(env_files@),
            pairs_view(container_env@),
            fview,
        );
        assert(expected->Object_0 =~= lit + ext);
        assert(pairs_view(es@) == lit + ext);
    }
    r
}

/// The devcontainer CLI arguments that follow the command prefix for `verb`
/// on the project: the docker path, the workspace folder and the config file.
pub open spec fn devcontainer_cli_args_spec(verb: Seq<char>, code: Seq<char>, config_path: Seq<char>) -> Seq<Seq<char>> {
    seq![verb, "--docker-path"@, "podman"@, "--workspace-folder"@, code, "--config"@, config_path]
}

fn devcontainer_cli_args(prefix: &[String], verb: &str, code_dir: &str, config_path: &str) -> (r: Vec<String>)
    ensures
        arg_views(r@) == arg_views(prefix@) + devcontainer_cli_args_spec(verb@, code_dir@, config_path@),
{
    let mut out: Vec<String> = Vec::new();
    extend_args(&mut out, prefix);
    let ghost p = arg_views(out@);
    push_arg(&mut out, verb.to_string());
    push_arg(&mut out, "--docker-path".to_string());
    push_arg(&mut out, "podman".to_string());
    push_arg(&mut out, "--workspace-folder".to_string());
    push_arg(&mut out, code_dir.to_string());
    push_arg(&mut out, "--config".to_string());
    push_arg(&mut out, config_path.to_string());
    assert(arg_views(out@) =~= p + devcontainer_cli_args_spec(verb@, code_dir@, config_path@));
    out
}

/// The arguments of `devcontainer up` after the command prefix: it replaces
/// any existing container of the workspace.
pub fn devcontainer_up_args(prefix: &[String], code_dir: &str, config_path: &str) -> (r: Vec<String>)
    ensures
        arg_views(r@) == arg_views(prefix@) + devcontainer_cli_args_spec("up"@, code_dir@, config_path@)
            + seq!["--remove-existing-container"@],
{
    let mut out = devcontainer_cli_args(prefix, "up", code_dir, config_path);
    push_arg(&mut out, "--remove-existing-container".to_string());
    out
}

/// The arguments of `devcontainer exec` after the command prefix: opencode
/// with the opencode arguments.
pub fn devcontainer_exec_args(prefix: &[String], code_dir: &str, config_path: &str, opencode_args: &[String]) -> (r: Vec<String>)
    ensures
        arg_views(r@) == arg_views(prefix@) + devcontainer_cli_args_spec("exec"@, code_dir@, config_path@)
            + seq!["opencode"@] + arg_views(opencode_args@),
{
    let mut out = devcontainer_cli_args(prefix, "exec", code_dir, config_path);
    push_arg(&mut out, "opencode".to_string());
    extend_args(&mut out, opencode_args);
    out
}

/// The arguments of `devcontainer stop` after the command prefix.
pub fn devcontainer_stop_args(prefix: &[String], code_dir: &str, config_path: &str) -> (r: Vec<String>)
    ensures
        arg_views(r@) == arg_views(prefix@) + devcontainer_cli_args_spec("stop"@, code_dir@, config_path@),
{
    devcontainer_cli_args(prefix, "stop", code_dir, config_path)
}

/// The string value of key `k` in a JSON object, if it has one.
pub open spec fn str_field(v: JsonView, k: Seq<char>) -> Option<Seq<char>> {
    match v {
        JsonView::Object(es) => match lookup(es, k) {
            Some(JsonView::Str(t)) => Some(t),
            _ => None,
        },
        _ => None,
    }
}

/// The entries of the `mounts` array of a configuration document.
pub open spec fn mounts_of(cfg: JsonView) -> Seq<JsonView> {
    match cfg {
        JsonView::Object(es) => match lookup(es, "mounts"@) {
            Some(JsonView::Array(ms)) => ms,
            _ => Seq::empty(),
        },
        _ => Seq::empty(),
    }
}

/// Whether the document mounts something at `target`, and every mount there
/// is a bind mount of `source`.
pub open spec fn binds_at(cfg: JsonView, target: Seq<char>, source: Seq<char>) -> bool {
    let ms = mounts_of(cfg);
    &&& exists|i: int| 0 <= i < ms.len() && str_field(#[trigger] ms[i], "target"@) == Some(target)
    &&& forall|i: int|
        0 <= i < ms.len() && str_field(#[trigger] ms[i], "target"@) == Some(target) ==> str_field(ms[i], "source"@)
            == Some(source) && str_field(ms[i], "type"@) == Some("bind"@)
}

proof fn lookup_at<V>(es: Seq<(Seq<char>, V)>, k: Seq<char>, i: int)
    requires
        0 <= i < es.len(),
        es[i].0 == k,
        forall|j: int| i < j < es.len() ==> es[j].0 != k,
    ensures
        lookup(es, k) == Some(es[i].1),
{
    crate::entries::key_index_props(es, k);
}

proof fn bind_mount_fields(source: Seq<char>, target: Seq<char>)
    ensures
        str_field(bind_mount(source, target), "source"@) == Some(source),
        str_field(bind_mount(source, target), "target"@) == Some(target),
        str_field(bind_mount(source, target), "type"@) == Some("bind"@),
{
    reveal_strlit("source");
    reveal_strlit("target");
    reveal_strlit("type");
    let es = seq![
        ("source"@, JsonView::Str(source)),
        ("target"@, JsonView::Str(target)),
        ("type"@, JsonView::Str("bind"@)),
    ];
    assert("target"@[0] != "source"@[0]);
    assert("type"@[0] != "source"@[0]);
    assert("type"@.len() != "target"@.len());
    lookup_at(es, "source"@, 0);
    lookup_at(es, "target"@, 1);
    lookup_at(es, "type"@, 2);
}

/// The generated configuration mounts each storage area where the fast path
/// mounts it: the data directory at opencode's data directory, the config
/// directory at its config directory, and the project at `/code`, as the
/// `-v` arguments of the fast path do for the same directories.
pub proof fn devcontainer_mounts_match_the_fast_path(
    id: Seq<char>,
    data: Seq<char>,
    config: Seq<char>,
    code: Seq<char>,
    web: Option<(u16, u16)>,
    env_files: Seq<Seq<char>>,
    env: Seq<(Seq<char>, Seq<char>)>,
    features: Seq<(Seq<char>, JsonView)>,
)
    requires
        data != config,
    ensures
        binds_at(
            devcontainer_config_spec(id, data, config, code, web, env_files, env, features),
            "/home/node/.local/share/opencode"@,
            data,
        ),
        binds_at(
            devcontainer_config_spec(id, data, config, code, web, env_files, env, features),
            "/home/node/.config/opencode"@,
            config,
        ),
        binds_at(devcontainer_config_spec(id, data, config, code, web, env_files, env, features), "/code"@, code),
        base_container_args(id, data, config, code).contains("-v="@ + data + ":"@ + "/home/node/.local/share/opencode"@ + ":Z"@),
        base_container_args(id, data, config, code).contains("-v="@ + config + ":"@ + "/home/node/.config/opencode"@ + ":Z"@),
        base_container_args(id, data, config, code).contains("-v="@ + code + ":"@ + "/code"@ + ":Z"@),
{
    let cfg = devcontainer_config_spec(id, data, config, code, web, env_files, env, features);
    reveal_strlit("name");
    reveal_strlit("image");
    reveal_strlit("build");
    reveal_strlit("forwardPorts");
    reveal_strlit("containerEnv");
    reveal_strlit("mounts");
    reveal_strlit("runArgs");
    reveal_strlit("overrideCommand");
    reveal_strlit("remoteUser");
    reveal_strlit("features");
    reveal_strlit("/home/node/.local/share/opencode");
    reveal_strlit("/home/node/.config/opencode");
    reveal_strlit("/code");
    let es = cfg->Object_0;
    let mounts = JsonView::Array(seq![
        bind_mount(data, "/home/node/.local/share/opencode"@),
        bind_mount(config, "/home/node/.config/opencode"@),
        bind_mount(code, "/code"@),
    ]);
    let head = seq![
        ("name"@, JsonView::Str("opencode-container"@)),
        ("image"@, JsonView::Str(image_name())),
        ("build"@, JsonView::Object(seq![("options"@, str_array(seq!["--progress=plain"@]))])),
        ("forwardPorts"@, JsonView::Array(match web {
            Some((container, _)) => seq![JsonView::Number(decimal(container as nat))],
            None => Seq::empty(),
        })),
        ("containerEnv"@, str_object(env)),
        ("mounts"@, mounts),
        ("runArgs"@, str_array(devcontainer_run_args_spec(id, env_files, match web {
            Some((container, host)) => Some((host, container)),
            None => None,
        }))),
        ("overrideCommand"@, JsonView::Bool(false)),
        ("remoteUser"@, JsonView::Str("node"@)),
    ];
    let tail: Seq<(Seq<char>, JsonView)> = if features.len() > 0 {
        seq![("features"@, JsonView::Object(features))]
    } else {
        Seq::empty()
    };
    assert(es == head + tail);
    assert(head.len() == 9);
    assert(es[5] == head[5]);
    assert(es[5].0 == "mounts"@);
    assert(es[6] == head[6]);
    assert(es[7] == head[7]);
    assert(es[8] == head[8]);
    assert forall|j: int| 5 < j < es.len() implies es[j].0 != "mounts"@ by {
        if j >= 9 {
            assert(es[j] == tail[j - 9]);
        }
        assert(es[j].0[0] != 'm');
    }
    lookup_at(es, "mounts"@, 5);
    let ms = mounts_of(cfg);
    assert(ms == seq![
        bind_mount(data, "/home/node/.local/share/opencode"@),
        bind_mount(config, "/home/node/.config/opencode"@),
        bind_mount(code, "/code"@),
    ]);
    bind_mount_fields(data, "/home/node/.local/share/opencode"@);
    bind_mount_fields(config, "/home/node/.config/opencode"@);
    bind_mount_fields(code, "/code"@);
    assert(str_field(ms[0], "target"@) == Some("/home/node/.local/share/opencode"@));
    assert(str_field(ms[1], "target"@) == Some("/home/node/.config/opencode"@));
    assert(str_field(ms[2], "target"@) == Some("/code"@));
    let b = base_container_args(id, data, config, code);
    reveal_strlit("-v=");
    reveal_strlit(":");
    reveal_strlit(":Z");
    reveal_strlit(":/home/node/.local/share/opencode:Z");
    reveal_strlit(":/home/node/.config/opencode:Z");
    reveal_strlit(":/code:Z");
    assert(b[1] == "-v="@ + data + ":"@ + "/home/node/.local/share/opencode"@ + ":Z"@);
    assert(b[2] == "-v="@ + config + ":"@ + "/home/node/.config/opencode"@ + ":Z"@);
    assert(b[3] == "-v="@ + code + ":"@ + "/code"@ + ":Z"@);
}

} // verus!
