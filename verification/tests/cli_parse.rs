use clap::builder::RangedU64ValueParser;
use clap::{Arg, ArgMatches, Command};
use nostaro::config::NostaroConfig;

#[derive(Debug)]
struct TestCli {
    command: TestCommands,
}

#[derive(Debug)]
enum TestCommands {
    Init,
    Post { message: String },
    Reply { note_id: String, message: String },
    Repost { note_id: String },
    Timeline { limit: usize },
    Search { query: String },
    Profile { action: TestProfileAction },
    Follow { npub: String },
    Unfollow { npub: String },
    Following,
    React { note_id: String, emoji: String },
    Dm { action: TestDmAction },
    Zap { target: String, amount: u64, message: Option<String> },
    Channel { action: TestChannelAction },
    Upload { file: String },
    Relay { action: TestRelayAction },
}

#[derive(Debug)]
enum TestProfileAction {
    Show {
        pubkey: Option<String>,
    },
    Update {
        name: Option<String>,
        display_name: Option<String>,
        about: Option<String>,
        picture: Option<String>,
    },
}

#[derive(Debug)]
enum TestDmAction {
    Send { npub: String, message: String },
    Read { npub: Option<String> },
}

#[derive(Debug)]
enum TestChannelAction {
    List,
    Read { id: String },
    Post { id: String, message: String },
}

#[derive(Debug)]
enum TestRelayAction {
    Add { url: String },
    Remove { url: String },
    List,
}

fn required(name: &'static str) -> Arg {
    Arg::new(name).required(true)
}

fn long_option(name: &'static str, long: &'static str) -> Arg {
    Arg::new(name).long(long)
}

fn grammar() -> Command {
    Command::new("nostaro")
        .subcommand_required(true)
        .subcommand(Command::new("init"))
        .subcommand(Command::new("post").arg(required("message")))
        .subcommand(Command::new("reply").arg(required("note_id")).arg(required("message")))
        .subcommand(Command::new("repost").arg(required("note_id")))
        .subcommand(
            Command::new("timeline").arg(
                Arg::new("limit")
                    .short('l')
                    .long("limit")
                    .default_value("20")
                    .value_parser(RangedU64ValueParser::<usize>::new()),
            ),
        )
        .subcommand(Command::new("search").arg(required("query")))
        .subcommand(
            Command::new("profile")
                .subcommand_required(true)
                .subcommand(Command::new("show").arg(Arg::new("pubkey").short('p').long("pubkey")))
                .subcommand(
                    Command::new("set")
                        .arg(long_option("name", "name"))
                        .arg(long_option("display_name", "display-name"))
                        .arg(long_option("about", "about"))
                        .arg(long_option("picture", "picture")),
                ),
        )
        .subcommand(Command::new("follow").arg(required("npub")))
        .subcommand(Command::new("unfollow").arg(required("npub")))
        .subcommand(Command::new("following"))
        .subcommand(
            Command::new("react")
                .arg(required("note_id"))
                .arg(Arg::new("emoji").default_value("\u{26A1}")),
        )
        .subcommand(
            Command::new("dm")
                .subcommand_required(true)
                .subcommand(Command::new("send").arg(required("npub")).arg(required("message")))
                .subcommand(Command::new("read").arg(Arg::new("npub"))),
        )
        .subcommand(
            Command::new("zap")
                .arg(required("target"))
                .arg(required("amount").value_parser(RangedU64ValueParser::<u64>::new()))
                .arg(Arg::new("message").short('m').long("message")),
        )
        .subcommand(
            Command::new("channel")
                .subcommand_required(true)
                .subcommand(Command::new("list"))
                .subcommand(Command::new("read").arg(required("id")))
                .subcommand(Command::new("post").arg(required("id")).arg(required("message"))),
        )
        .subcommand(Command::new("upload").arg(required("file")))
        .subcommand(
            Command::new("relay")
                .subcommand_required(true)
                .subcommand(Command::new("add").arg(required("url")))
                .subcommand(Command::new("remove").arg(required("url")))
                .subcommand(Command::new("list")),
        )
}

fn text(matches: &ArgMatches, name: &str) -> String {
    matches.get_one::<String>(name).cloned().unwrap()
}

fn optional(matches: &ArgMatches, name: &str) -> Option<String> {
    matches.get_one::<String>(name).cloned()
}

fn command_of(matches: &ArgMatches) -> TestCommands {
    let (name, sub) = matches.subcommand().unwrap();
    match name {
        "init" => TestCommands::Init,
        "post" => TestCommands::Post { message: text(sub, "message") },
        "reply" => TestCommands::Reply {
            note_id: text(sub, "note_id"),
            message: text(sub, "message"),
        },
        "repost" => TestCommands::Repost { note_id: text(sub, "note_id") },
        "timeline" => TestCommands::Timeline { limit: *sub.get_one::<usize>("limit").unwrap() },
        "search" => TestCommands::Search { query: text(sub, "query") },
        "profile" => {
            let (action, inner) = sub.subcommand().unwrap();
            TestCommands::Profile {
                action: match action {
                    "show" => TestProfileAction::Show { pubkey: optional(inner, "pubkey") },
                    _ => TestProfileAction::Update {
                        name: optional(inner, "name"),
                        display_name: optional(inner, "display_name"),
                        about: optional(inner, "about"),
                        picture: optional(inner, "picture"),
                    },
                },
            }
        }
        "follow" => TestCommands::Follow { npub: text(sub, "npub") },
        "unfollow" => TestCommands::Unfollow { npub: text(sub, "npub") },
        "following" => TestCommands::Following,
        "react" => TestCommands::React {
            note_id: text(sub, "note_id"),
            emoji: text(sub, "emoji"),
        },
        "dm" => {
            let (action, inner) = sub.subcommand().unwrap();
            TestCommands::Dm {
                action: match action {
                    "send" => TestDmAction::Send {
                        npub: text(inner, "npub"),
                        message: text(inner, "message"),
                    },
                    _ => TestDmAction::Read { npub: optional(inner, "npub") },
                },
            }
        }
        "zap" => TestCommands::Zap {
            target: text(sub, "target"),
            amount: *sub.get_one::<u64>("amount").unwrap(),
            message: optional(sub, "message"),
        },
        "channel" => {
            let (action, inner) = sub.subcommand().unwrap();
            TestCommands::Channel {
                action: match action {
                    "list" => TestChannelAction::List,
                    "read" => TestChannelAction::Read { id: text(inner, "id") },
                    _ => TestChannelAction::Post {
                        id: text(inner, "id"),
                        message: text(inner, "message"),
                    },
                },
            }
        }
        "upload" => TestCommands::Upload { file: text(sub, "file") },
        _ => {
            let (action, inner) = sub.subcommand().unwrap();
            TestCommands::Relay {
                action: match action {
                    "add" => TestRelayAction::Add { url: text(inner, "url") },
                    "remove" => TestRelayAction::Remove { url: text(inner, "url") },
                    _ => TestRelayAction::List,
                },
            }
        }
    }
}

impl TestCli {
    fn try_parse_from<const N: usize>(args: [&str; N]) -> Result<TestCli, clap::Error> {
        let matches = grammar().try_get_matches_from(args)?;
        Ok(TestCli { command: command_of(&matches) })
    }
}

#[test]
fn cli_parse_init() {
    let cli = TestCli::try_parse_from(["nostaro", "init"]).unwrap();
    assert!(matches!(cli.command, TestCommands::Init));
}

#[test]
fn cli_parse_post() {
    let cli = TestCli::try_parse_from(["nostaro", "post", "Hello Nostr!"]).unwrap();
    match cli.command {
        TestCommands::Post { message } => assert_eq!(message, "Hello Nostr!"),
        _ => panic!("Expected Post command"),
    }
}

#[test]
fn cli_parse_reply() {
    let cli =
        TestCli::try_parse_from(["nostaro", "reply", "note1abc", "Hello reply!"]).unwrap();
    match cli.command {
        TestCommands::Reply { note_id, message } => {
            assert_eq!(note_id, "note1abc");
            assert_eq!(message, "Hello reply!");
        }
        _ => panic!("Expected Reply command"),
    }
}

#[test]
fn cli_parse_repost() {
    let cli = TestCli::try_parse_from(["nostaro", "repost", "note1abc"]).unwrap();
    match cli.command {
        TestCommands::Repost { note_id } => assert_eq!(note_id, "note1abc"),
        _ => panic!("Expected Repost command"),
    }
}

#[test]
fn cli_parse_timeline_default_limit() {
    let cli = TestCli::try_parse_from(["nostaro", "timeline"]).unwrap();
    match cli.command {
        TestCommands::Timeline { limit } => assert_eq!(limit, 20),
        _ => panic!("Expected Timeline command"),
    }
}

#[test]
fn cli_parse_timeline_custom_limit() {
    let cli = TestCli::try_parse_from(["nostaro", "timeline", "--limit", "50"]).unwrap();
    match cli.command {
        TestCommands::Timeline { limit } => assert_eq!(limit, 50),
        _ => panic!("Expected Timeline command"),
    }
}

#[test]
fn cli_parse_search() {
    let cli = TestCli::try_parse_from(["nostaro", "search", "bitcoin"]).unwrap();
    match cli.command {
        TestCommands::Search { query } => assert_eq!(query, "bitcoin"),
        _ => panic!("Expected Search command"),
    }
}

#[test]
fn cli_parse_profile_show_no_pubkey() {
    let cli = TestCli::try_parse_from(["nostaro", "profile", "show"]).unwrap();
    match cli.command {
        TestCommands::Profile { action } => match action {
            TestProfileAction::Show { pubkey } => assert!(pubkey.is_none()),
            _ => panic!("Expected Show action"),
        },
        _ => panic!("Expected Profile command"),
    }
}

#[test]
fn cli_parse_profile_show_with_pubkey() {
    let cli =
        TestCli::try_parse_from(["nostaro", "profile", "show", "-p", "npub1abc123"]).unwrap();
    match cli.command {
        TestCommands::Profile { action } => match action {
            TestProfileAction::Show { pubkey } => assert_eq!(pubkey.unwrap(), "npub1abc123"),
            _ => panic!("Expected Show action"),
        },
        _ => panic!("Expected Profile command"),
    }
}

#[test]
fn cli_parse_profile_set_all_fields() {
    let cli = TestCli::try_parse_from([
        "nostaro",
        "profile",
        "set",
        "--name",
        "test",
        "--display-name",
        "Test User",
        "--about",
        "A test bio",
        "--picture",
        "https://example.com/pic.png",
    ])
    .unwrap();
    match cli.command {
        TestCommands::Profile { action } => match action {
            TestProfileAction::Update {
                name,
                display_name,
                about,
                picture,
            } => {
                assert_eq!(name.unwrap(), "test");
                assert_eq!(display_name.unwrap(), "Test User");
                assert_eq!(about.unwrap(), "A test bio");
                assert_eq!(picture.unwrap(), "https://example.com/pic.png");
            }
            _ => panic!("Expected Set action"),
        },
        _ => panic!("Expected Profile command"),
    }
}

#[test]
fn cli_parse_follow() {
    let cli = TestCli::try_parse_from(["nostaro", "follow", "npub1abc123"]).unwrap();
    match cli.command {
        TestCommands::Follow { npub } => assert_eq!(npub, "npub1abc123"),
        _ => panic!("Expected Follow command"),
    }
}

#[test]
fn cli_parse_unfollow() {
    let cli = TestCli::try_parse_from(["nostaro", "unfollow", "npub1abc123"]).unwrap();
    match cli.command {
        TestCommands::Unfollow { npub } => assert_eq!(npub, "npub1abc123"),
        _ => panic!("Expected Unfollow command"),
    }
}

#[test]
fn cli_parse_following() {
    let cli = TestCli::try_parse_from(["nostaro", "following"]).unwrap();
    assert!(matches!(cli.command, TestCommands::Following));
}

#[test]
fn cli_parse_react_default_emoji() {
    let cli = TestCli::try_parse_from(["nostaro", "react", "abc123"]).unwrap();
    match cli.command {
        TestCommands::React { note_id, emoji } => {
            assert_eq!(note_id, "abc123");
            assert_eq!(emoji, "\u{26A1}");
        }
        _ => panic!("Expected React command"),
    }
}

#[test]
fn cli_parse_react_custom_emoji() {
    let cli = TestCli::try_parse_from(["nostaro", "react", "abc123", "+"]).unwrap();
    match cli.command {
        TestCommands::React { note_id, emoji } => {
            assert_eq!(note_id, "abc123");
            assert_eq!(emoji, "+");
        }
        _ => panic!("Expected React command"),
    }
}

#[test]
fn cli_parse_dm_send() {
    let cli =
        TestCli::try_parse_from(["nostaro", "dm", "send", "npub1abc", "Hello DM!"]).unwrap();
    match cli.command {
        TestCommands::Dm { action } => match action {
            TestDmAction::Send { npub, message } => {
                assert_eq!(npub, "npub1abc");
                assert_eq!(message, "Hello DM!");
            }
            _ => panic!("Expected Send action"),
        },
        _ => panic!("Expected Dm command"),
    }
}

#[test]
fn cli_parse_dm_read_no_filter() {
    let cli = TestCli::try_parse_from(["nostaro", "dm", "read"]).unwrap();
    match cli.command {
        TestCommands::Dm { action } => match action {
            TestDmAction::Read { npub } => assert!(npub.is_none()),
            _ => panic!("Expected Read action"),
        },
        _ => panic!("Expected Dm command"),
    }
}

#[test]
fn cli_parse_dm_read_with_filter() {
    let cli = TestCli::try_parse_from(["nostaro", "dm", "read", "npub1abc"]).unwrap();
    match cli.command {
        TestCommands::Dm { action } => match action {
            TestDmAction::Read { npub } => assert_eq!(npub.unwrap(), "npub1abc"),
            _ => panic!("Expected Read action"),
        },
        _ => panic!("Expected Dm command"),
    }
}

#[test]
fn cli_parse_zap() {
    let cli = TestCli::try_parse_from(["nostaro", "zap", "npub1abc", "1000"]).unwrap();
    match cli.command {
        TestCommands::Zap {
            target,
            amount,
            message,
        } => {
            assert_eq!(target, "npub1abc");
            assert_eq!(amount, 1000);
            assert!(message.is_none());
        }
        _ => panic!("Expected Zap command"),
    }
}

#[test]
fn cli_parse_zap_with_message() {
    let cli = TestCli::try_parse_from([
        "nostaro",
        "zap",
        "npub1abc",
        "2100",
        "-m",
        "Great post!",
    ])
    .unwrap();
    match cli.command {
        TestCommands::Zap {
            target,
            amount,
            message,
        } => {
            assert_eq!(target, "npub1abc");
            assert_eq!(amount, 2100);
            assert_eq!(message.unwrap(), "Great post!");
        }
        _ => panic!("Expected Zap command"),
    }
}

#[test]
fn cli_parse_channel_list() {
    let cli = TestCli::try_parse_from(["nostaro", "channel", "list"]).unwrap();
    match cli.command {
        TestCommands::Channel { action } => {
            assert!(matches!(action, TestChannelAction::List));
        }
        _ => panic!("Expected Channel command"),
    }
}

#[test]
fn cli_parse_channel_read() {
    let cli = TestCli::try_parse_from(["nostaro", "channel", "read", "abc123"]).unwrap();
    match cli.command {
        TestCommands::Channel { action } => match action {
            TestChannelAction::Read { id } => assert_eq!(id, "abc123"),
            _ => panic!("Expected Read action"),
        },
        _ => panic!("Expected Channel command"),
    }
}

#[test]
fn cli_parse_channel_post() {
    let cli =
        TestCli::try_parse_from(["nostaro", "channel", "post", "abc123", "Hello channel!"])
            .unwrap();
    match cli.command {
        TestCommands::Channel { action } => match action {
            TestChannelAction::Post { id, message } => {
                assert_eq!(id, "abc123");
                assert_eq!(message, "Hello channel!");
            }
            _ => panic!("Expected Post action"),
        },
        _ => panic!("Expected Channel command"),
    }
}

#[test]
fn cli_parse_upload() {
    let cli = TestCli::try_parse_from(["nostaro", "upload", "photo.jpg"]).unwrap();
    match cli.command {
        TestCommands::Upload { file } => assert_eq!(file, "photo.jpg"),
        _ => panic!("Expected Upload command"),
    }
}

#[test]
fn cli_parse_relay_add() {
    let cli =
        TestCli::try_parse_from(["nostaro", "relay", "add", "wss://relay.damus.io"]).unwrap();
    match cli.command {
        TestCommands::Relay { action } => match action {
            TestRelayAction::Add { url } => assert_eq!(url, "wss://relay.damus.io"),
            _ => panic!("Expected Add action"),
        },
        _ => panic!("Expected Relay command"),
    }
}

#[test]
fn cli_parse_relay_remove() {
    let cli =
        TestCli::try_parse_from(["nostaro", "relay", "remove", "wss://relay.damus.io"]).unwrap();
    match cli.command {
        TestCommands::Relay { action } => match action {
            TestRelayAction::Remove { url } => assert_eq!(url, "wss://relay.damus.io"),
            _ => panic!("Expected Remove action"),
        },
        _ => panic!("Expected Relay command"),
    }
}

#[test]
fn cli_parse_relay_list() {
    let cli = TestCli::try_parse_from(["nostaro", "relay", "list"]).unwrap();
    match cli.command {
        TestCommands::Relay { action } => {
            assert!(matches!(action, TestRelayAction::List));
        }
        _ => panic!("Expected Relay command"),
    }
}

#[test]
fn cli_parse_unknown_command_fails() {
    let result = TestCli::try_parse_from(["nostaro", "unknown"]);
    assert!(result.is_err());
}

#[test]
fn cli_parse_post_missing_message_fails() {
    let result = TestCli::try_parse_from(["nostaro", "post"]);
    assert!(result.is_err());
}

#[test]
fn relay_added_on_the_command_line_becomes_active() {
    let cli = TestCli::try_parse_from(["nostaro", "relay", "add", "wss://relay.example"]).unwrap();
    let mut config = NostaroConfig::default();
    match cli.command {
        TestCommands::Relay { action: TestRelayAction::Add { url } } => config.relays.push(url),
        _ => panic!("Expected Relay command"),
    }
    assert_eq!(config.active_relays(), vec!["wss://relay.example"]);
}
