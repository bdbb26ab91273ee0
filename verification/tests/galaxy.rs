use std::collections::HashSet;

use tugraph::db::{Galaxy, GraphAccess, OpenOptions, MINIMUM_GRAPH_MAX_SIZE};
use tugraph::engine::{Arg, Handle, Kind, Op, Request};
use tugraph::raw::{RawRoleInfo, RawUserInfo};
use tugraph::script::{Answer, Script};
use tugraph::types::AccessLevel;
use tugraph::ErrorKind;

const DIR: &str = "/tmp/rust_tugraph/galaxy";

fn denied() -> Answer {
    Answer::Failure("Access denied.".to_string())
}

fn texts(names: &[&str]) -> Vec<String> {
    names.iter().map(|s| s.to_string()).collect()
}

fn text(s: &str) -> Arg {
    Arg::Text(s.to_string())
}

fn user(desc: &str, roles: &[&str]) -> RawUserInfo {
    RawUserInfo {
        desc: desc.to_string(),
        roles: texts(roles),
        disabled: false,
        memory_limit: 1 << 30,
    }
}

fn role(desc: &str, disabled: bool, access: &[(&str, u32)]) -> RawRoleInfo {
    RawRoleInfo {
        desc: desc.to_string(),
        graph_names: access.iter().map(|a| a.0.to_string()).collect(),
        access_levels: access.iter().map(|a| a.1).collect(),
        disabled,
    }
}

fn galaxy_handle(id: u64) -> Handle {
    Handle {
        kind: Kind::Galaxy,
        id,
    }
}

fn open_as(engine: &mut Script, username: &str, password: &str) -> Galaxy {
    OpenOptions::new()
        .create(true)
        .open(engine, DIR, username, password)
        .unwrap()
}

#[test]
fn test_mod_graph() {
    let new_desc = "The new description of default graph";
    let mut engine = Script::new(vec![
        Answer::Handle(1),
        Answer::Handle(2),
        Answer::Flag(true),
        Answer::Text(new_desc.to_string()),
    ]);
    let galaxy = open_as(&mut engine, "admin", "73@TuGraph");
    let graph = galaxy.open_graph(&mut engine, "default", true).unwrap();
    let modified = galaxy
        .mod_graph()
        .mod_desc(new_desc.into())
        .apply(&mut engine, "default")
        .unwrap();
    assert!(modified);
    assert_eq!(graph.get_description(&mut engine), Ok(new_desc.into()));
    assert_eq!(
        engine.requests()[2],
        Request {
            target: galaxy_handle(1),
            op: Op::ModGraph,
            args: vec![
                text("default"),
                Arg::Flag(true),
                text(new_desc),
                Arg::Flag(false),
                Arg::Size(0),
            ],
        }
    );
}

#[test]
fn test_admin_switch_user() {
    let mut engine = Script::new(vec![
        Answer::Handle(1),
        Answer::Flag(true),
        Answer::Users((
            texts(&["admin", "test_user1"]),
            vec![user("", &["admin"]), user("user one", &["test_user1"])],
        )),
        Answer::Unit,
        Answer::Unit,
    ]);
    let galaxy = open_as(&mut engine, "admin", "73@TuGraph");
    let created = galaxy
        .create_user(&mut engine, "test_user1", "test_password1", "user one")
        .unwrap();
    assert!(created);

    let mut usernames: Vec<_> = galaxy
        .list_users(&mut engine)
        .unwrap()
        .into_iter()
        .map(|u| u.name)
        .collect();
    usernames.sort();
    assert_eq!(usernames, vec!["admin", "test_user1"]);
    galaxy
        .set_user_without_auth(&mut engine, "test_user1")
        .expect("admin should be permitted to switch to test_user1");

    galaxy
        .set_user_without_auth(&mut engine, "admin")
        .expect("switching back from test_user1 to admin should be ok");
    assert_eq!(engine.requests()[3].op, Op::SetUser);
    assert_eq!(engine.requests()[4].args, vec![text("admin")]);
}

#[test]
fn test_normal_user_switch_user() {
    let mut engine = Script::new(vec![
        Answer::Handle(1),
        Answer::Flag(true),
        Answer::Flag(true),
        Answer::Users((
            texts(&["admin", "test_user1", "test_user2"]),
            vec![user("", &[]), user("user one", &[]), user("user two", &[])],
        )),
        Answer::Unit,
        Answer::Handle(2),
        Answer::Unit,
        Answer::Failure("Bad user/password.".to_string()),
    ]);
    {
        let galaxy = open_as(&mut engine, "admin", "73@TuGraph");
        let created = galaxy
            .create_user(&mut engine, "test_user1", "test_password1", "user one")
            .unwrap();
        assert!(created);
        let created = galaxy
            .create_user(&mut engine, "test_user2", "test_password2", "user two")
            .unwrap();
        assert!(created);

        let mut usernames: Vec<_> = galaxy
            .list_users(&mut engine)
            .unwrap()
            .into_iter()
            .map(|u| u.name)
            .collect();
        usernames.sort();
        assert_eq!(usernames, vec!["admin", "test_user1", "test_user2"]);
        galaxy.close(&mut engine).unwrap();
    }

    let galaxy = open_as(&mut engine, "test_user1", "test_password1");

    galaxy
        .set_current_user(&mut engine, "test_user2", "test_password2")
        .expect("switching to test_user2 with password should be ok");

    galaxy
        .set_current_user(&mut engine, "test_user1", "wrong_password")
        .expect_err("switching back to test_user1 with wrong password should be err");
}

#[test]
fn test_create_user() {
    let mut engine = Script::new(vec![
        Answer::Handle(1),
        Answer::Flag(true),
        Answer::Unit,
        Answer::Handle(2),
        denied(),
    ]);
    {
        let galaxy = open_as(&mut engine, "admin", "73@TuGraph");
        let created = galaxy
            .create_user(&mut engine, "test_user1", "test_password1", "user one")
            .unwrap();
        assert!(created);
        galaxy.close(&mut engine).unwrap();
    }

    let galaxy = Galaxy::open(&mut engine, DIR, "test_user1", "test_password1").unwrap();
    let e = galaxy
        .create_user(&mut engine, "test_user2", "test_password2", "user two")
        .expect_err("normal user cannot create new user");
    assert_eq!(e.kind(), ErrorKind::WriteNotAllowed);
}

#[test]
fn test_delete_user() {
    let mut engine = Script::new(vec![
        Answer::Handle(1),
        Answer::Flag(true),
        Answer::Unit,
        Answer::Handle(2),
        denied(),
        Answer::Unit,
        Answer::Handle(3),
        Answer::Flag(true),
    ]);
    {
        let galaxy = open_as(&mut engine, "admin", "73@TuGraph");
        let created = galaxy
            .create_user(&mut engine, "test_user1", "test_password1", "user one")
            .unwrap();
        assert!(created);
        galaxy.close(&mut engine).unwrap();
    }
    {
        let galaxy = Galaxy::open(&mut engine, DIR, "test_user1", "test_password1").unwrap();
        galaxy
            .delete_user(&mut engine, "test_user1")
            .expect_err("normal user cannot delete user");
        galaxy.close(&mut engine).unwrap();
    }
    {
        let galaxy = Galaxy::open(&mut engine, DIR, "admin", "73@TuGraph").unwrap();
        galaxy
            .delete_user(&mut engine, "test_user1")
            .expect("admin can delete user");
    }
}

#[test]
fn test_set_password() {
    let mut engine = Script::new(vec![
        Answer::Handle(1),
        Answer::Flag(true),
        Answer::Flag(true),
        Answer::Unit,
        Answer::Handle(2),
        Answer::Flag(true),
        Answer::Unit,
        Answer::Handle(3),
        denied(),
        Answer::Flag(true),
    ]);
    {
        let galaxy = open_as(&mut engine, "admin", "73@TuGraph");
        let created = galaxy
            .create_user(&mut engine, "test_user1", "test_password1", "user one")
            .unwrap();
        assert!(created);
        let created = galaxy
            .create_user(&mut engine, "test_user2", "test_password2", "user one")
            .unwrap();
        assert!(created);
        galaxy.close(&mut engine).unwrap();
    }
    {
        let galaxy = Galaxy::open(&mut engine, DIR, "admin", "73@TuGraph").unwrap();
        galaxy
            .set_password(&mut engine, "test_user1", "test_password1", "new_password1")
            .expect("admin can set other users' password");
        galaxy.close(&mut engine).unwrap();
    }
    {
        let galaxy = Galaxy::open(&mut engine, DIR, "test_user1", "new_password1").unwrap();
        galaxy
            .set_password(&mut engine, "test_user2", "test_password2", "new_password2")
            .expect_err("normal user cannot set other user's password");
        galaxy
            .set_password(&mut engine, "test_user1", "new_password1", "test_password1")
            .expect("normal user can set itself password");
    }
    assert_eq!(
        engine.requests().last().unwrap().args,
        vec![
            text("test_user1"),
            text("new_password1"),
            text("test_password1")
        ]
    );
}

#[test]
fn test_set_user_desc() {
    let mut engine = Script::new(vec![
        Answer::Handle(1),
        Answer::Flag(true),
        Answer::Flag(true),
        Answer::Unit,
        Answer::Handle(2),
        Answer::Flag(true),
        Answer::User(user("new_description1", &["test_user1"])),
        Answer::Unit,
        Answer::Handle(3),
        denied(),
        Answer::Flag(true),
        Answer::User(user("the newest description1", &["test_user1"])),
    ]);
    {
        let galaxy = open_as(&mut engine, "admin", "73@TuGraph");
        let created = galaxy
            .create_user(&mut engine, "test_user1", "test_password1", "user one")
            .unwrap();
        assert!(created);
        let created = galaxy
            .create_user(&mut engine, "test_user2", "test_password2", "user one")
            .unwrap();
        assert!(created);
        galaxy.close(&mut engine).unwrap();
    }
    {
        let galaxy = Galaxy::open(&mut engine, DIR, "admin", "73@TuGraph").unwrap();
        let setted = galaxy
            .set_user_desc(&mut engine, "test_user1", "new_description1")
            .unwrap();
        assert!(setted);
        let desc = galaxy.get_user_info(&mut engine, "test_user1").unwrap().desc;
        assert_eq!(desc, "new_description1");
        galaxy.close(&mut engine).unwrap();
    }
    {
        let galaxy = Galaxy::open(&mut engine, DIR, "test_user1", "test_password1").unwrap();
        galaxy
            .set_user_desc(&mut engine, "test_user2", "new_description2")
            .expect_err("normal user cannot set other user's description");
        let setted = galaxy
            .set_user_desc(&mut engine, "test_user1", "the newest description1")
            .unwrap();
        assert!(setted);
        let desc = galaxy.get_user_info(&mut engine, "test_user1").unwrap().desc;
        assert_eq!(desc, "the newest description1");
    }
}

#[test]
fn test_set_user_roles() {
    let mut engine = Script::new(vec![
        Answer::Handle(1),
        Answer::Flag(true),
        Answer::Flag(true),
        Answer::Flag(true),
        Answer::Unit,
        Answer::Handle(2),
        Answer::Flag(true),
        Answer::User(user("user one", &["test_user1", "operator"])),
        Answer::Unit,
        Answer::Handle(3),
        denied(),
        denied(),
    ]);
    {
        let galaxy = open_as(&mut engine, "admin", "73@TuGraph");
        let created = galaxy
            .create_user(&mut engine, "test_user1", "test_password1", "user one")
            .unwrap();
        assert!(created);
        let created = galaxy
            .create_user(&mut engine, "test_user2", "test_password2", "user one")
            .unwrap();
        assert!(created);
        let created = galaxy
            .create_role(&mut engine, "operator", "a operator role")
            .unwrap();
        assert!(created);
        galaxy.close(&mut engine).unwrap();
    }
    {
        let galaxy = Galaxy::open(&mut engine, DIR, "admin", "73@TuGraph").unwrap();
        let setted = galaxy
            .set_user_roles(&mut engine, "test_user1", &["operator"])
            .unwrap();
        assert!(setted);
        let roles = galaxy.get_user_info(&mut engine, "test_user1").unwrap().roles;
        assert_eq!(
            roles.into_iter().collect::<HashSet<_>>(),
            HashSet::from_iter(["test_user1".to_string(), "operator".to_string()])
        );
        galaxy.close(&mut engine).unwrap();
    }
    {
        let galaxy = Galaxy::open(&mut engine, DIR, "test_user2", "test_password2").unwrap();
        galaxy
            .set_user_roles(&mut engine, "test_user1", &["operator"])
            .expect_err("normal user cannot set other user's roles");
        galaxy
            .set_user_roles(&mut engine, "test_user2", &["operator"])
            .expect_err("normal user cannot set itself roles");
    }
    assert_eq!(
        engine.requests()[7].args,
        vec![text("test_user1"), Arg::Texts(texts(&["operator"]))]
    );
}

#[test]
fn test_set_user_graph_access() {
    let mut engine = Script::new(vec![
        Answer::Handle(1),
        Answer::Flag(true),
        Answer::Flag(true),
        Answer::Unit,
        Answer::Handle(2),
        Answer::Flag(true),
        Answer::Code(1),
        Answer::Unit,
        Answer::Handle(3),
        denied(),
        denied(),
    ]);
    {
        let galaxy = open_as(&mut engine, "admin", "73@TuGraph");
        let created = galaxy
            .create_user(&mut engine, "test_user1", "test_password1", "user one")
            .unwrap();
        assert!(created);
        let created = galaxy
            .create_user(&mut engine, "test_user2", "test_password2", "user one")
            .unwrap();
        assert!(created);
        galaxy.close(&mut engine).unwrap();
    }
    {
        let galaxy = Galaxy::open(&mut engine, DIR, "admin", "73@TuGraph").unwrap();
        let setted = galaxy
            .set_user_graph_access(&mut engine, "test_user1", "default", AccessLevel::Read)
            .unwrap();
        assert!(setted);
        let al = galaxy
            .get_access_level(&mut engine, "test_user1", "default")
            .unwrap();
        assert!(matches!(al, AccessLevel::Read));
        galaxy.close(&mut engine).unwrap();
    }
    {
        let galaxy = Galaxy::open(&mut engine, DIR, "test_user2", "test_password2").unwrap();
        galaxy
            .set_user_graph_access(&mut engine, "test_user1", "default", AccessLevel::Write)
            .expect_err("normal user cannot set other user's access level");
        galaxy
            .set_user_graph_access(&mut engine, "test_user2", "default", AccessLevel::Full)
            .expect_err("normal user cannot set itself roles");
    }
    assert_eq!(
        engine.requests()[6].args,
        vec![text("test_user1"), text("default"), Arg::Code(1)]
    );
    assert_eq!(
        engine.requests().last().unwrap().args,
        vec![text("test_user2"), text("default"), Arg::Code(3)]
    );
}

#[test]
fn test_enable_disable_user() {
    let mut engine = Script::new(vec![
        Answer::Handle(1),
        Answer::Flag(true),
        Answer::Flag(true),
        Answer::Unit,
        Answer::Handle(2),
        denied(),
        denied(),
        Answer::Unit,
        Answer::Handle(3),
        Answer::Flag(true),
        Answer::Unit,
        Answer::Failure("Unauthorized.".to_string()),
        Answer::Handle(4),
        Answer::Flag(true),
        Answer::Unit,
        Answer::Handle(5),
    ]);
    {
        let galaxy = open_as(&mut engine, "admin", "73@TuGraph");
        let created = galaxy
            .create_user(&mut engine, "test_user1", "test_password1", "user one")
            .unwrap();
        assert!(created);
        let created = galaxy
            .create_user(&mut engine, "test_user2", "test_password2", "user one")
            .unwrap();
        assert!(created);
        galaxy.close(&mut engine).unwrap();
    }
    {
        let galaxy = Galaxy::open(&mut engine, DIR, "test_user1", "test_password1").unwrap();
        galaxy
            .disable_user(&mut engine, "test_user1")
            .expect_err("user cannot disable itself");
        galaxy
            .disable_user(&mut engine, "test_user2")
            .expect_err("normal user cannot disable others");
        galaxy.close(&mut engine).unwrap();
    }
    {
        let galaxy = Galaxy::open(&mut engine, DIR, "admin", "73@TuGraph").unwrap();
        let disabled = galaxy.disable_user(&mut engine, "test_user1").unwrap();
        assert!(disabled);
        galaxy.close(&mut engine).unwrap();
    }
    {
        assert!(Galaxy::open(&mut engine, DIR, "test_user1", "test_password1").is_err());
    }
    {
        let galaxy = Galaxy::open(&mut engine, DIR, "admin", "73@TuGraph").unwrap();
        galaxy
            .enable_user(&mut engine, "test_user1")
            .expect("enable user should be ok");
        galaxy.close(&mut engine).unwrap();
    }
    {
        assert!(Galaxy::open(&mut engine, DIR, "test_user1", "test_password1").is_ok());
    }
    assert_eq!(engine.left(), 0);
}

#[test]
fn test_role_operations() {
    let four = || {
        Answer::Roles((
            texts(&["admin", "test_user1", "operator", "developer"]),
            vec![
                role("", false, &[("default", 3)]),
                role("", false, &[]),
                role("a good operator", false, &[]),
                role("C++ programmer", false, &[]),
            ],
        ))
    };
    let mut engine = Script::new(vec![
        Answer::Handle(1),
        Answer::Flag(true),
        Answer::Flag(true),
        Answer::Flag(true),
        Answer::Flag(true),
        four(),
        Answer::Flag(true),
        Answer::Role(role("a good operator", true, &[])),
        Answer::Flag(true),
        Answer::Role(role("a good operator", false, &[])),
        Answer::Flag(true),
        Answer::Role(role("a new operator", false, &[])),
        Answer::Flag(true),
        Answer::Role(role("a new operator", false, &[("default", 3)])),
        Answer::Flag(true),
        Answer::Role(role("C++ programmer", false, &[("default", 1)])),
        Answer::Flag(true),
        Answer::Role(role(
            "C++ programmer",
            false,
            &[("default", 1), ("test_graph1", 2)],
        )),
        Answer::Flag(true),
        Answer::Roles((
            texts(&["admin", "test_user1", "operator"]),
            vec![
                role("", false, &[("default", 3)]),
                role("", false, &[]),
                role("a new operator", false, &[("default", 3)]),
            ],
        )),
    ]);

    let galaxy = open_as(&mut engine, "admin", "73@TuGraph");
    galaxy
        .create_graph(
            &mut engine,
            "test_graph1",
            "test graph one",
            MINIMUM_GRAPH_MAX_SIZE,
        )
        .expect("create graph should be ok");
    let created = galaxy
        .create_user(&mut engine, "test_user1", "test_password1", "user one")
        .unwrap();
    assert!(created);
    let created = galaxy
        .create_role(&mut engine, "operator", "a good operator")
        .unwrap();
    assert!(created);
    let created = galaxy
        .create_role(&mut engine, "developer", "C++ programmer")
        .unwrap();
    assert!(created);
    let roles: Vec<_> = galaxy.list_roles(&mut engine).unwrap();
    assert_eq!(
        roles
            .iter()
            .map(|r| r.name.as_str())
            .collect::<HashSet<_>>(),
        HashSet::from(["admin", "test_user1", "operator", "developer"]),
    );
    assert!(roles.iter().all(|r| !r.info.disabled));

    galaxy
        .disable_role(&mut engine, "operator")
        .expect("disable operator should be ok");
    let operator = galaxy.get_role_info(&mut engine, "operator").unwrap();
    assert!(operator.disabled);

    galaxy
        .enable_role(&mut engine, "operator")
        .expect("enable operator should be ok");
    let operator = galaxy.get_role_info(&mut engine, "operator").unwrap();
    assert!(!operator.disabled);

    galaxy
        .set_role_desc(&mut engine, "operator", "a new operator")
        .expect("set role description should be ok");
    let operator = galaxy.get_role_info(&mut engine, "operator").unwrap();
    assert_eq!(operator.desc, "a new operator");

    galaxy
        .set_role_access_rights(
            &mut engine,
            "operator",
            &[GraphAccess {
                name: "default".to_string(),
                access_level: AccessLevel::Full,
            }],
        )
        .expect("set role access rights should be ok");
    let operator = galaxy.get_role_info(&mut engine, "operator").unwrap();
    assert!(matches!(
        operator.access_on("default").unwrap(),
        AccessLevel::Full
    ));

    galaxy
        .set_role_access_rights_incremental(
            &mut engine,
            "developer",
            &[GraphAccess {
                name: "default".to_string(),
                access_level: AccessLevel::Read,
            }],
        )
        .expect("set role access rights incrementally should be ok");
    let developer = galaxy.get_role_info(&mut engine, "developer").unwrap();
    assert!(matches!(
        developer.access_on("default").unwrap(),
        AccessLevel::Read
    ));
    galaxy
        .set_role_access_rights_incremental(
            &mut engine,
            "developer",
            &[GraphAccess {
                name: "test_graph1".to_string(),
                access_level: AccessLevel::Write,
            }],
        )
        .expect("set role access rights incrementally should be ok");
    let developer = galaxy.get_role_info(&mut engine, "developer").unwrap();
    assert!(matches!(
        developer.access_on("default").unwrap(),
        AccessLevel::Read
    ));
    assert!(matches!(
        developer.access_on("test_graph1").unwrap(),
        AccessLevel::Write
    ));

    galaxy
        .delete_role(&mut engine, "developer")
        .expect("delete a role should be ok");
    let roles: Vec<_> = galaxy.list_roles(&mut engine).unwrap();
    assert_eq!(
        roles
            .iter()
            .map(|r| r.name.as_str())
            .collect::<HashSet<_>>(),
        HashSet::from(["admin", "test_user1", "operator"]),
    );
    assert_eq!(
        engine.requests()[12],
        Request {
            target: galaxy_handle(1),
            op: Op::SetRoleAccessRights,
            args: vec![
                text("operator"),
                Arg::Texts(texts(&["default"])),
                Arg::Codes(vec![3]),
            ],
        }
    );
    assert_eq!(engine.requests()[16].op, Op::SetRoleAccessRightsIncremental);
}

#[test]
fn open_options_go_to_the_engine_as_given() {
    let mut engine = Script::new(vec![
        Answer::Handle(7),
        Answer::Handle(8),
        Answer::Handle(9),
    ]);
    OpenOptions::new()
        .durable(true)
        .open(&mut engine, DIR, "admin", "pw")
        .unwrap();
    OpenOptions::default()
        .create(true)
        .durable(false)
        .open(&mut engine, DIR, "admin", "pw")
        .unwrap();
    Galaxy::open(&mut engine, DIR, "admin", "pw").unwrap();
    let flags: Vec<_> = engine
        .requests()
        .iter()
        .map(|r| (r.args[3] == Arg::Flag(true), r.args[4] == Arg::Flag(true)))
        .collect();
    assert_eq!(flags, vec![(true, false), (false, true), (false, false)]);
    assert_eq!(
        engine.requests()[0],
        Request {
            target: galaxy_handle(0),
            op: Op::CreateWithUser,
            args: vec![
                text(DIR),
                text("admin"),
                text("pw"),
                Arg::Flag(true),
                Arg::Flag(false),
            ],
        }
    );
}

#[test]
fn open_fails_with_the_message_of_the_engine() {
    let mut engine = Script::new(vec![Answer::Failure(
        "The specified TuGraph DB does not exist.".to_string(),
    )]);
    let e = match Galaxy::open(&mut engine, DIR, "admin", "pw") {
        Ok(_) => panic!("opened"),
        Err(e) => e,
    };
    assert_eq!(e.kind(), ErrorKind::DBNotExist);
    assert_eq!(e.msg(), "The specified TuGraph DB does not exist.");
}

#[test]
fn create_graph_asks_for_no_less_than_the_minimum() {
    let mut engine = Script::new(vec![
        Answer::Handle(1),
        Answer::Flag(true),
        Answer::Flag(true),
        Answer::Flag(false),
    ]);
    let galaxy = open_as(&mut engine, "admin", "pw");
    assert_eq!(MINIMUM_GRAPH_MAX_SIZE, 1 << 20);
    assert_eq!(galaxy.create_graph(&mut engine, "a", "", 0), Ok(true));
    assert_eq!(galaxy.create_graph(&mut engine, "b", "", (1 << 20) + 1), Ok(true));
    assert_eq!(galaxy.create_graph(&mut engine, "b", "", 1 << 20), Ok(false));
    let sizes: Vec<_> = engine.requests()[1..]
        .iter()
        .map(|r| r.args[2] == Arg::Size(1 << 20))
        .collect();
    assert_eq!(sizes, vec![true, false, true]);
    assert_eq!(engine.requests()[2].args[2], Arg::Size((1 << 20) + 1));
}

#[test]
fn mod_graph_sends_only_what_was_given() {
    let mut engine = Script::new(vec![
        Answer::Handle(1),
        Answer::Flag(true),
        Answer::Flag(true),
        Answer::Flag(false),
    ]);
    let galaxy = open_as(&mut engine, "admin", "pw");
    galaxy
        .mod_graph()
        .mod_max_size(4096)
        .apply(&mut engine, "g")
        .unwrap();
    galaxy
        .mod_graph()
        .mod_desc("d".to_string())
        .mod_max_size(1)
        .mod_desc("e".to_string())
        .apply(&mut engine, "g")
        .unwrap();
    assert_eq!(galaxy.mod_graph().apply(&mut engine, "g"), Ok(false));
    assert_eq!(
        engine.requests()[1].args,
        vec![
            text("g"),
            Arg::Flag(false),
            text(""),
            Arg::Flag(true),
            Arg::Size(4096)
        ]
    );
    assert_eq!(
        engine.requests()[2].args,
        vec![
            text("g"),
            Arg::Flag(true),
            text("e"),
            Arg::Flag(true),
            Arg::Size(1)
        ]
    );
    assert_eq!(
        engine.requests()[3].args,
        vec![
            text("g"),
            Arg::Flag(false),
            text(""),
            Arg::Flag(false),
            Arg::Size(0)
        ]
    );
}

#[test]
fn list_graphs_takes_the_later_of_two_rows_with_one_name() {
    let mut engine = Script::new(vec![
        Answer::Handle(1),
        Answer::Graphs((
            texts(&["default", "g1", "default", "g2"]),
            texts(&["first", "one", "second", "two", "beyond the names"]),
            vec![1, 2, 3],
        )),
        Answer::Graphs((vec![], vec![], vec![])),
        denied(),
    ]);
    let galaxy = open_as(&mut engine, "admin", "pw");
    let graphs = galaxy.list_graphs(&mut engine).unwrap();
    let rows: Vec<_> = graphs
        .iter()
        .map(|g| (g.name.as_str(), g.desc.as_str(), g.max_size))
        .collect();
    assert_eq!(rows, vec![("g1", "one", 2), ("default", "second", 3)]);
    assert!(galaxy.list_graphs(&mut engine).unwrap().is_empty());
    assert_eq!(
        galaxy.list_graphs(&mut engine).unwrap_err().kind(),
        ErrorKind::WriteNotAllowed
    );
}

#[test]
fn list_users_keeps_each_role_once() {
    let mut engine = Script::new(vec![
        Answer::Handle(1),
        Answer::Users((
            texts(&["u", "v", "u"]),
            vec![
                user("old", &["a"]),
                user("other", &["x", "y", "x"]),
                user("new", &["b", "b", "c"]),
            ],
        )),
    ]);
    let galaxy = open_as(&mut engine, "admin", "pw");
    let users = galaxy.list_users(&mut engine).unwrap();
    assert_eq!(users.len(), 2);
    assert_eq!(users[0].name, "v");
    assert_eq!(users[0].info.roles, texts(&["y", "x"]));
    assert_eq!(users[1].name, "u");
    assert_eq!(users[1].info.desc, "new");
    assert_eq!(users[1].info.roles, texts(&["b", "c"]));
    assert!(users[1].info.has_role("c"));
    assert!(!users[1].info.has_role("a"));
    assert_eq!(users[1].info.memory_limit, 1 << 30);
}

#[test]
fn role_record_with_a_level_that_is_none_is_an_invalid_parameter() {
    let mut engine = Script::new(vec![
        Answer::Handle(1),
        Answer::Role(role("r", false, &[("default", 4)])),
        Answer::Roles((
            texts(&["r", "s"]),
            vec![role("r", false, &[("default", 3)]), role("s", true, &[("g", 9)])],
        )),
        Answer::Roles((
            texts(&["r", "r"]),
            vec![role("r", false, &[("default", 9)]), role("r", true, &[("g", 0)])],
        )),
    ]);
    let galaxy = open_as(&mut engine, "admin", "pw");
    let e = galaxy.get_role_info(&mut engine, "r").unwrap_err();
    assert_eq!(e.kind(), ErrorKind::InvalidParameter);
    let e = galaxy.list_roles(&mut engine).unwrap_err();
    assert_eq!(e.msg(), "Invalid parameter.");
    let roles = galaxy.list_roles(&mut engine).unwrap();
    assert_eq!(roles.len(), 1);
    assert!(roles[0].info.disabled);
    assert_eq!(roles[0].info.access_on("g"), Some(AccessLevel::NoAccess));
    assert_eq!(roles[0].info.access_on("default"), None);
}

#[test]
fn role_record_takes_the_later_of_two_levels_on_one_graph() {
    let raw = role("r", false, &[("g", 1), ("h", 2), ("g", 3)]);
    let access = raw.graph_access();
    assert_eq!(
        access,
        vec![
            ("h".to_string(), AccessLevel::Write),
            ("g".to_string(), AccessLevel::Full)
        ]
    );
    let mut lopsided = role("r", false, &[("g", 1), ("h", 2)]);
    lopsided.access_levels.pop();
    assert_eq!(lopsided.graph_access(), vec![("g".to_string(), AccessLevel::Read)]);
}

#[test]
fn access_level_that_is_none_is_an_invalid_parameter() {
    let mut engine = Script::new(vec![
        Answer::Handle(1),
        Answer::Code(4),
        Answer::Code(0),
        Answer::Failure("Unauthorized.".to_string()),
    ]);
    let galaxy = open_as(&mut engine, "admin", "pw");
    let e = galaxy.get_access_level(&mut engine, "u", "g").unwrap_err();
    assert_eq!(e.kind(), ErrorKind::InvalidParameter);
    assert_eq!(
        galaxy.get_access_level(&mut engine, "u", "g"),
        Ok(AccessLevel::NoAccess)
    );
    assert_eq!(
        galaxy.get_access_level(&mut engine, "u", "g").unwrap_err().kind(),
        ErrorKind::Unauthorized
    );
}

#[test]
fn closing_a_galaxy_closes_then_destroys_it() {
    let mut engine = Script::new(vec![
        Answer::Handle(5),
        Answer::Unit,
        Answer::Handle(6),
        Answer::Failure("IO Error.".to_string()),
    ]);
    let galaxy = open_as(&mut engine, "admin", "pw");
    assert_eq!(galaxy.close(&mut engine), Ok(()));
    let galaxy = open_as(&mut engine, "admin", "pw");
    let e = galaxy.close(&mut engine).unwrap_err();
    assert_eq!(e.kind(), ErrorKind::IOError);
    let asked: Vec<_> = engine.requests().iter().map(|r| (r.target.id, r.op)).collect();
    assert_eq!(
        asked,
        vec![
            (0, Op::CreateWithUser),
            (5, Op::Close),
            (5, Op::Destroy),
            (0, Op::CreateWithUser),
            (6, Op::Close),
            (6, Op::Destroy),
        ]
    );
    assert!(engine.requests()[2].args.is_empty());
}
