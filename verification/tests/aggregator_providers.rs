use phos::aggregator::discovery::ContainerInfo;
use phos::aggregator::packages::{
    containers_from_managed_packages, containers_from_public_packages, containers_from_wamp_packages,
    containers_from_docker, detect_package_program, docker_tail, DockerSummary, ManagedPackage, PackageContainer, PublicPackage, WampPackage,
};
use phos::aggregator::provider::{initial_tail, log_lines_from_text, reply_logs_text, unavailable_log_line, LogPoll};
use phos::aggregator::web::{find_container, LogSession};
use phos::category::Category;
use phos::colors::Color;
use phos::program::{ProgramRegistry, SimpleProgram};
use phos::rule::Rule;
use phos::text::lines;

fn s(t: &str) -> String {
    t.to_string()
}

fn registry() -> ProgramRegistry {
    let mut registry = ProgramRegistry::new();
    let rule = Rule::new(r"\bERROR\b").unwrap().color(Color::named("red")).build();
    let geth = SimpleProgram::new("ethereum.geth", "Geth", "Geth logs", Category::Ethereum, vec![rule])
        .with_detect_patterns(vec!["geth"]);
    registry.register(geth);
    let lighthouse = SimpleProgram::new("ethereum.lighthouse", "Lighthouse", "", Category::Ethereum, Vec::new())
        .with_detect_patterns(vec!["lighthouse"]);
    registry.register(lighthouse);
    registry
}

#[test]
fn lines_split_like_str_lines() {
    assert_eq!(lines("a\nb\r\n\nc"), vec![s("a"), s("b"), s(""), s("c")]);
    assert_eq!(lines("a\n"), vec![s("a")]);
    assert_eq!(lines(""), Vec::<String>::new());
    assert_eq!(lines("x\r"), vec![s("x\r")]);
    assert_eq!(lines("\n"), vec![s("")]);
}

#[test]
fn reply_text_becomes_non_empty_log_lines() {
    let ls = log_lines_from_text("one\n\ntwo\n");
    let contents: Vec<&str> = ls.iter().map(|l| l.content.as_str()).collect();
    assert_eq!(contents, vec!["one", "two"]);
    assert!(ls.iter().all(|l| !l.is_stderr && l.timestamp.is_none()));
    assert!(log_lines_from_text("").is_empty());
}

#[test]
fn tail_zero_asks_for_the_whole_history() {
    assert_eq!(initial_tail(0), None);
    assert_eq!(initial_tail(5), Some(5));
}

#[test]
fn reply_logs_field_comes_first() {
    assert_eq!(reply_logs_text(Some(s("a")), Some(s("b"))), "a");
    assert_eq!(reply_logs_text(None, Some(s("b"))), "b");
    assert_eq!(reply_logs_text(None, None), "");
}

#[test]
fn polling_sends_only_new_lines() {
    let mut poll = LogPoll::new();
    let first: Vec<String> = poll.poll("a\nb").into_iter().map(|l| l.content).collect();
    assert_eq!(first, vec![s("a"), s("b")]);
    assert!(poll.poll("a\nb").is_empty());
    let more: Vec<String> = poll.poll("a\nb\n\nc").into_iter().map(|l| l.content).collect();
    assert_eq!(more, vec![s("c")]);
    assert!(poll.poll("x").is_empty());
    let after: Vec<String> = poll.poll("x\ny").into_iter().map(|l| l.content).collect();
    assert_eq!(after, vec![s("y")]);
}

#[test]
fn provider_without_log_access_says_so() {
    let line = unavailable_log_line("geth.dnp.dappnode.eth");
    assert_eq!(
        line.content,
        "[phos] Log streaming not available for 'geth.dnp.dappnode.eth'. DAPPMANAGER requires authentication for log access. Container status is available in the sidebar."
    );
    assert!(!line.is_stderr);
    assert!(line.timestamp.is_none());
}

fn container(name: Option<&str>, id: Option<&str>, state: Option<&str>, image: Option<&str>) -> PackageContainer {
    PackageContainer {
        container_name: name.map(s),
        container_id: id.map(s),
        state: state.map(s),
        image: image.map(s),
    }
}

fn fields(c: &ContainerInfo) -> (String, String, String, String, Option<String>) {
    (c.id.clone(), c.name.clone(), c.image.clone(), c.status.clone(), c.program.clone())
}

#[test]
fn managed_packages_flatten_into_containers() {
    let packages = vec![
        ManagedPackage {
            dnp_name: Some(s("geth.dnp.dappnode.eth")),
            state: Some(s("running")),
            containers: Some(vec![
                container(Some("DAppNodePackage-geth.dnp.dappnode.eth"), Some("c1"), Some("running"), Some("geth:1")),
                container(None, None, None, None),
            ]),
        },
        ManagedPackage { dnp_name: Some(s("other.dnp.dappnode.eth")), state: None, containers: None },
    ];
    let cs = containers_from_managed_packages(&registry(), &packages, "");
    let got: Vec<_> = cs.iter().map(fields).collect();
    assert_eq!(
        got,
        vec![
            (s("c1"), s("DAppNodePackage-geth.dnp.dappnode.eth"), s("geth:1"), s("running"), Some(s("ethereum.geth"))),
            (s(""), s(""), s(""), s("unknown"), None),
            (s("other.dnp.dappnode.eth"), s("other.dnp.dappnode.eth"), s(""), s("unknown"), None),
        ]
    );
    let filtered = containers_from_managed_packages(&registry(), &packages, "other*");
    assert_eq!(filtered.len(), 1);
    assert_eq!(filtered[0].name, "other.dnp.dappnode.eth");
}

#[test]
fn public_packages_need_a_name() {
    let packages = vec![
        PublicPackage { name: Some(s("geth.dnp.dappnode.eth")), version: Some(s("0.1.49")), state: Some(s("running")) },
        PublicPackage { name: Some(s("")), version: None, state: None },
        PublicPackage { name: None, version: None, state: None },
        PublicPackage { name: Some(s("ipfs.dnp.dappnode.eth")), version: None, state: None },
    ];
    let cs = containers_from_public_packages(&registry(), &packages, "*.eth");
    let got: Vec<_> = cs.iter().map(fields).collect();
    assert_eq!(
        got,
        vec![
            (
                s("geth.dnp.dappnode.eth"),
                s("geth.dnp.dappnode.eth"),
                s("0.1.49"),
                s("running"),
                Some(s("ethereum.geth"))
            ),
            (s("ipfs.dnp.dappnode.eth"), s("ipfs.dnp.dappnode.eth"), s(""), s("unknown"), None),
        ]
    );
    assert!(containers_from_public_packages(&registry(), &packages, "nothing").is_empty());
}

#[test]
fn wamp_packages_use_their_names() {
    let packages = vec![
        WampPackage {
            dnp_name: Some(s("lighthouse.dnp.dappnode.eth")),
            container_name: Some(s("light-vchouse.dnp.dappnode.eth")),
            name: None,
            state: Some(s("running")),
            container_id: None,
            image: None,
            containers: None,
        },
        WampPackage {
            dnp_name: None,
            container_name: None,
            name: Some(s("plain")),
            state: None,
            container_id: Some(s("id9")),
            image: Some(s("img")),
            containers: None,
        },
        WampPackage {
            dnp_name: None,
            container_name: None,
            name: None,
            state: None,
            container_id: None,
            image: None,
            containers: Some(vec![container(Some("x-bn-node"), None, Some("exited"), None)]),
        },
    ];
    let cs = containers_from_wamp_packages(&registry(), &packages, "");
    let got: Vec<_> = cs.iter().map(fields).collect();
    assert_eq!(
        got,
        vec![
            (
                s("light-vchouse.dnp.dappnode.eth"),
                s("light-vchouse.dnp.dappnode.eth"),
                s(""),
                s("running"),
                Some(s("ethereum.lighthouse"))
            ),
            (s("id9"), s("plain"), s("img"), s("unknown"), None),
            (s("x-bn-node"), s("x-bn-node"), s(""), s("exited"), None),
        ]
    );
}

#[test]
fn package_program_strips_role_words_anywhere() {
    let reg = registry();
    assert_eq!(detect_package_program(&reg, "light-bnhouse.dnp", "img"), Some(s("ethereum.lighthouse")));
    assert_eq!(detect_package_program(&reg, "node", "geth:latest"), Some(s("ethereum.geth")));
    assert_eq!(detect_package_program(&reg, "node", "img"), None);
    assert_eq!(phos::aggregator::discovery::detect_program(&reg, "light-bnhouse.dnp", "img"), None);
}

fn listed() -> Vec<ContainerInfo> {
    let reg = registry();
    vec![
        ContainerInfo::new(&reg, "abc", "geth-1", "geth:1", "running"),
        ContainerInfo::new(&reg, "def", "abc", "img", "running"),
    ]
}

#[test]
fn containers_are_found_by_id_then_name() {
    let cs = listed();
    assert_eq!(find_container(&cs, "abc"), Some(0));
    assert_eq!(find_container(&cs, "geth-1"), Some(0));
    assert_eq!(find_container(&cs, "def"), Some(1));
    assert_eq!(find_container(&cs, "zzz"), None);
}

#[test]
fn log_session_reports_errors() {
    let reg = registry();
    let e = LogSession::open(&reg, Err(s("socket closed")), "abc", None, None).err().unwrap();
    assert_eq!(e, "{\"error\": \"Failed to list containers: socket closed\"}");
    let e = LogSession::open(&reg, Ok(listed()), "zzz", None, None).err().unwrap();
    assert_eq!(e, "{\"error\": \"Container not found: zzz\"}");
    assert_eq!(LogSession::logs_error("gone"), "{\"error\": \"Failed to get logs: gone\"}");
}

#[test]
fn log_session_sends_colorized_html_lines() {
    let reg = registry();
    let mut session = LogSession::open(&reg, Ok(listed()), "geth-1", None, Some(s("nord"))).ok().unwrap();
    assert!(session.message("   ").is_none());
    let m = session.message("  ERROR <boom>  ").unwrap();
    let v: serde_json::Value = serde_json::from_str(&m).unwrap();
    assert_eq!(v["container_id"], "abc");
    assert_eq!(v["container_name"], "geth-1");
    assert_eq!(v["program"], "ethereum.geth");
    let html = v["html"].as_str().unwrap();
    assert!(html.contains("ERROR"));
    assert!(html.contains("&lt;boom&gt;"));
    assert!(m.starts_with("{\"container_id\":\"abc\",\"container_name\":\"geth-1\",\"html\":"));

    let mut plain = LogSession::open(&reg, Ok(listed()), "def", Some(s("none")), None).ok().unwrap();
    let m = plain.message("hello").unwrap();
    assert_eq!(m, "{\"container_id\":\"def\",\"container_name\":\"abc\",\"html\":\"hello\",\"program\":\"none\"}");
}

#[test]
fn container_json_escapes_strings() {
    let reg = registry();
    let c = ContainerInfo::new(&reg, "a\"b", "x\ny\u{1}\\", "i\t", "ok");
    assert_eq!(
        c.to_json(),
        "{\"id\":\"a\\\"b\",\"image\":\"i\\t\",\"name\":\"x\\ny\\u0001\\\\\",\"program\":null,\"status\":\"ok\"}"
    );
}

#[test]
fn detection_patterns_are_taken_literally() {
    let mut reg = ProgramRegistry::new();
    reg.register(
        SimpleProgram::new("dev.dotted", "Dotted", "", Category::Dev, Vec::new()).with_detect_patterns(vec!["a.b"]),
    );
    assert!(reg.detect("run a.b now").is_some());
    assert!(reg.detect("run axb now").is_none());
}

#[test]
fn docker_list_shortens_ids_and_trims_names() {
    let summaries = vec![
        DockerSummary {
            id: Some(s("0123456789abcdef0123")),
            names: Some(vec![s("//geth-node"), s("/alias")]),
            image: Some(s("ethereum/client-go")),
            status: Some(s("Up 2 hours")),
        },
        DockerSummary { id: None, names: Some(vec![s("/x")]), image: None, status: None },
        DockerSummary { id: Some(s("short")), names: Some(vec![]), image: None, status: None },
        DockerSummary { id: Some(s("abc")), names: Some(vec![s("/web")]), image: None, status: None },
    ];
    let cs = containers_from_docker(&registry(), &summaries, "");
    let got: Vec<_> = cs.iter().map(fields).collect();
    assert_eq!(
        got,
        vec![
            (s("0123456789ab"), s("geth-node"), s("ethereum/client-go"), s("Up 2 hours"), Some(s("ethereum.geth"))),
            (s("abc"), s("web"), s(""), s(""), None),
        ]
    );
    assert_eq!(containers_from_docker(&registry(), &summaries, "geth*").len(), 1);
}

#[test]
fn docker_tail_zero_means_all() {
    assert_eq!(docker_tail(0), "all");
    assert_eq!(docker_tail(250), "250");
}
