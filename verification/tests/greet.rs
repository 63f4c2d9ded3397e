use greetbot::bot::greet::{
    debug_handler, get_config, greet_member, greet_run, handle_join, handle_leave, handler,
    has_role, prepare_embed, Config as GreetConfig, GreetState, Reply, Step, GREET_DELAY_SECS,
};
use greetbot::bot::{Action, Config, Plan};
use greetbot::model::{Embed, EmbedField, Event, GreetError, User};
use greetbot::{COLOR_GREEN, COLOR_RED};
use std::collections::HashMap;

const NOW: i64 = 1_700_000_000;

struct WelcomeData {
    user: String,
}

impl far::Render for WelcomeData {
    fn render(&self) -> HashMap<&'static str, String> {
        let mut values = HashMap::new();
        values.insert("user", self.user.clone());
        values
    }

    fn keys() -> Box<dyn Iterator<Item = &'static str>> {
        Box::new(["user"].into_iter())
    }
}

fn render_reply(step: &Step) -> Reply {
    match step {
        Step::Render { template, user } => match far::find::<_, WelcomeData>(template) {
            Ok(found) => Reply::Rendered { text: found.replace(&WelcomeData { user: user.clone() }) },
            Err(_) => Reply::Failed,
        },
        other => panic!("not a render step: {:?}", other),
    }
}

fn guild_config() -> GreetConfig {
    GreetConfig::new(1, 2, 10, 20, "thanks {{user}}".to_string(), "hi {{user}}".to_string())
}

fn store() -> Config {
    Config::new(vec![("100".to_string(), guild_config())])
}

fn user(id: u64) -> User {
    User { id, name: "ferris".to_string(), discriminator: 42, bot: false, avatar: None }
}

fn field(name: &str, value: &str) -> EmbedField {
    EmbedField { name: name.to_string(), value: value.to_string(), inline: true }
}

fn join_embed_of_55() -> Embed {
    Embed {
        title: Some("Member joined".to_string()),
        description: "ferris#0042 (<@55>)".to_string(),
        color: Some(COLOR_GREEN),
        fields: vec![field("ID", "55"), field("Account created", "<t:1420070400:R>")],
        timestamp: NOW,
        thumbnail: None,
    }
}

fn schedule_55() -> Action {
    Action::ScheduleGreet { delay_secs: 5, guild: 100, user: 55, config: guild_config() }
}

#[test]
fn join_of_a_newcomer_schedules_the_greeting_and_posts_the_audit_embed() {
    let event = Event::MemberAdd { guild_id: 100, user: user(55) };
    let plan = handler(&store(), &event, NOW);
    assert_eq!(
        plan,
        Plan {
            actions: vec![schedule_55(), Action::SendEmbed { channel: 2, embed: join_embed_of_55() }],
            failure: None,
        }
    );
}

#[test]
fn greeting_of_a_newcomer_fetches_renders_and_sends() {
    let config = guild_config();
    let (state, step) = greet_member(&config, 100, 55, GreetState::Waiting, &Reply::Elapsed);
    assert_eq!(state, GreetState::FetchingMember);
    assert_eq!(step, Step::FetchMember { guild: 100, user: 55 });
    let (state, step) = greet_member(&config, 100, 55, state, &Reply::Member { roles: vec![] });
    assert_eq!(state, GreetState::Rendering);
    assert_eq!(
        step,
        Step::Render { template: "hi {{user}}".to_string(), user: "<@55>".to_string() }
    );
    let rendered = render_reply(&step);
    assert_eq!(rendered, Reply::Rendered { text: "hi <@55>".to_string() });
    let (state, step) = greet_member(&config, 100, 55, state, &rendered);
    assert_eq!(state, GreetState::Sending);
    assert_eq!(step, Step::SendMessage { channel: 1, content: "hi <@55>".to_string() });
    let (state, step) = greet_member(&config, 100, 55, state, &Reply::Sent);
    assert_eq!(state, GreetState::Finished);
    assert_eq!(step, Step::Done);
}

#[test]
fn greeting_of_a_member_stops_after_the_fetch() {
    let replies = vec![
        Reply::Elapsed,
        Reply::Member { roles: vec![20] },
        Reply::RoleAdded,
        Reply::Rendered { text: "hi".to_string() },
        Reply::Sent,
    ];
    let steps = greet_run(&guild_config(), 100, 55, &replies);
    assert_eq!(steps, vec![Step::FetchMember { guild: 100, user: 55 }, Step::Skip]);
}

#[test]
fn join_of_a_member_still_posts_the_audit_embed() {
    let plan = handle_join(&store(), 100, &user(55), NOW);
    assert_eq!(plan.failure, None);
    assert_eq!(plan.actions.len(), 2);
    assert_eq!(plan.actions[1], Action::SendEmbed { channel: 2, embed: join_embed_of_55() });
}

#[test]
fn member_who_is_also_patron_is_skipped() {
    let replies = vec![Reply::Elapsed, Reply::Member { roles: vec![10, 20] }];
    let steps = greet_run(&guild_config(), 100, 55, &replies);
    assert_eq!(steps, vec![Step::FetchMember { guild: 100, user: 55 }, Step::Skip]);
}

#[test]
fn bot_accounts_are_left_alone() {
    let mut bot = user(55);
    bot.bot = true;
    let joined = Event::MemberAdd { guild_id: 100, user: bot.clone() };
    let left = Event::MemberRemove { guild_id: 100, user: bot };
    assert_eq!(handler(&store(), &joined, NOW), Plan { actions: vec![], failure: None });
    assert_eq!(handler(&store(), &left, NOW), Plan { actions: vec![], failure: None });
}

#[test]
fn guild_without_settings_is_left_alone() {
    let idle = Plan { actions: vec![], failure: None };
    assert_eq!(handle_join(&store(), 101, &user(55), NOW), idle);
    assert_eq!(handle_leave(&store(), 101, &user(55), NOW), idle);
    assert_eq!(handle_join(&Config::new(vec![]), 100, &user(55), NOW), idle);
    assert_eq!(Plan::none(), idle);
}

#[test]
fn patron_is_granted_the_role_before_the_patron_greeting() {
    let config = guild_config();
    let first = vec![Reply::Elapsed, Reply::Member { roles: vec![7, 10] }, Reply::RoleAdded];
    let steps = greet_run(&config, 100, 55, &first);
    assert_eq!(
        steps,
        vec![
            Step::FetchMember { guild: 100, user: 55 },
            Step::AddRole { guild: 100, user: 55, role: 20 },
            Step::Render { template: "thanks {{user}}".to_string(), user: "<@55>".to_string() },
        ]
    );
    let rendered = render_reply(&steps[2]);
    let all = vec![
        Reply::Elapsed,
        Reply::Member { roles: vec![7, 10] },
        Reply::RoleAdded,
        rendered,
        Reply::Sent,
    ];
    let steps = greet_run(&config, 100, 55, &all);
    assert_eq!(steps.len(), 5);
    assert_eq!(steps[3], Step::SendMessage { channel: 1, content: "thanks <@55>".to_string() });
    assert_eq!(steps[4], Step::Done);
}

#[test]
fn failed_grant_ends_the_greeting_without_a_message() {
    let replies = vec![
        Reply::Elapsed,
        Reply::Member { roles: vec![10] },
        Reply::Failed,
        Reply::Rendered { text: "x".to_string() },
        Reply::Sent,
    ];
    let steps = greet_run(&guild_config(), 100, 55, &replies);
    assert_eq!(
        steps,
        vec![
            Step::FetchMember { guild: 100, user: 55 },
            Step::AddRole { guild: 100, user: 55, role: 20 },
            Step::Abort { error: GreetError::Platform },
        ]
    );
}

#[test]
fn newcomer_is_never_granted_a_role() {
    let replies = vec![
        Reply::Elapsed,
        Reply::Member { roles: vec![7, 8] },
        Reply::Rendered { text: "hi <@55>".to_string() },
        Reply::Sent,
    ];
    let steps = greet_run(&guild_config(), 100, 55, &replies);
    assert_eq!(
        steps,
        vec![
            Step::FetchMember { guild: 100, user: 55 },
            Step::Render { template: "hi {{user}}".to_string(), user: "<@55>".to_string() },
            Step::SendMessage { channel: 1, content: "hi <@55>".to_string() },
            Step::Done,
        ]
    );
    assert!(steps.iter().all(|s| !matches!(s, Step::AddRole { .. })));
}

#[test]
fn failures_end_the_greeting_with_their_error() {
    let config = guild_config();
    let abort = |error| (GreetState::Finished, Step::Abort { error });
    assert_eq!(
        greet_member(&config, 100, 55, GreetState::FetchingMember, &Reply::Failed),
        abort(GreetError::Platform)
    );
    assert_eq!(
        greet_member(&config, 100, 55, GreetState::Rendering, &Reply::Failed),
        abort(GreetError::Render)
    );
    assert_eq!(
        greet_member(&config, 100, 55, GreetState::Sending, &Reply::Failed),
        abort(GreetError::Platform)
    );
    assert_eq!(
        greet_member(&config, 100, 55, GreetState::Waiting, &Reply::Sent),
        abort(GreetError::Unexpected)
    );
    assert_eq!(
        greet_member(&config, 100, 55, GreetState::Finished, &Reply::Elapsed),
        abort(GreetError::Unexpected)
    );
}

#[test]
fn malformed_template_fails_to_render() {
    let step = Step::Render { template: "hi {{user".to_string(), user: "<@55>".to_string() };
    assert_eq!(render_reply(&step), Reply::Failed);
    let unknown = Step::Render { template: "hi {{nobody}}".to_string(), user: "<@55>".to_string() };
    assert_eq!(render_reply(&unknown), Reply::Failed);
}

#[test]
fn run_without_replies_takes_no_step() {
    assert_eq!(greet_run(&guild_config(), 100, 55, &vec![]), vec![]);
}

#[test]
fn departure_posts_the_red_embed() {
    let plan = handle_leave(&store(), 100, &user(55), NOW);
    let embed = Embed {
        title: Some("Member left".to_string()),
        description: "ferris#0042 (<@55>)".to_string(),
        color: Some(COLOR_RED),
        fields: vec![field("ID", "55")],
        timestamp: NOW,
        thumbnail: None,
    };
    assert_eq!(
        plan,
        Plan { actions: vec![Action::SendEmbed { channel: 2, embed }], failure: None }
    );
    let event = Event::MemberRemove { guild_id: 100, user: user(55) };
    assert_eq!(handler(&store(), &event, NOW), plan);
}

#[test]
fn prepared_embed_holds_identity_time_and_avatar() {
    let mut account = user(175928847299117063);
    account.avatar = Some("a_1269e74af4df7417b13759eae50c83dc".to_string());
    account.discriminator = 7;
    let embed = prepare_embed(&account, NOW).unwrap();
    assert_eq!(embed.title, None);
    assert_eq!(embed.color, None);
    assert_eq!(embed.description, "ferris#0007 (<@175928847299117063>)");
    assert_eq!(embed.fields, vec![field("ID", "175928847299117063")]);
    assert_eq!(embed.timestamp, NOW);
    assert_eq!(
        embed.thumbnail,
        Some(
            "https://cdn.discordapp.com/avatars/175928847299117063/a_1269e74af4df7417b13759eae50c83dc.png?size=128"
                .to_string()
        )
    );
}

#[test]
fn account_age_is_decoded_from_the_id() {
    let plan = handle_join(&store(), 100, &user(175928847299117063), NOW);
    match &plan.actions[1] {
        Action::SendEmbed { embed, .. } => {
            assert_eq!(embed.fields[1], field("Account created", "<t:1462015105:R>"));
        }
        other => panic!("not an embed: {:?}", other),
    }
    let plan = handle_join(&store(), 100, &user(u64::MAX), NOW);
    match &plan.actions[1] {
        Action::SendEmbed { embed, .. } => {
            assert_eq!(embed.fields[1], field("Account created", "<t:5818116911:R>"));
        }
        other => panic!("not an embed: {:?}", other),
    }
}

#[test]
fn time_that_does_not_fit_fails_the_embed() {
    assert_eq!(prepare_embed(&user(55), i64::MAX), Err(GreetError::Timestamp));
    assert_eq!(prepare_embed(&user(55), i64::MIN), Err(GreetError::Timestamp));
    assert!(prepare_embed(&user(55), 0).is_ok());
    let join = handle_join(&store(), 100, &user(55), i64::MAX);
    assert_eq!(join, Plan { actions: vec![schedule_55()], failure: Some(GreetError::Timestamp) });
    let leave = handle_leave(&store(), 100, &user(55), i64::MAX);
    assert_eq!(leave, Plan { actions: vec![], failure: Some(GreetError::Timestamp) });
}

#[test]
fn delay_is_five_seconds() {
    assert_eq!(GREET_DELAY_SECS, 5);
}

#[test]
fn lookup_hands_out_a_copy() {
    let global = store();
    assert_eq!(get_config(&global, 100), Some(guild_config()));
    assert_eq!(get_config(&global, 1), None);
    assert_eq!(global.lookup(100), Some(&guild_config()));
    assert_eq!(global.lookup(0), None);
}

#[test]
fn settings_are_found_under_the_decimal_id_only() {
    let other = GreetConfig::new(3, 4, 5, 6, "p".to_string(), "w".to_string());
    let global = Config::new(vec![
        ("0100".to_string(), other.clone()),
        ("+100".to_string(), other.clone()),
        ("main".to_string(), other.clone()),
        ("18446744073709551615".to_string(), other.clone()),
        ("100".to_string(), guild_config()),
        ("100".to_string(), other.clone()),
    ]);
    assert_eq!(get_config(&global, 100), Some(guild_config()));
    assert_eq!(get_config(&global, u64::MAX), Some(other));
    assert_eq!(get_config(&global, 10), None);
    assert_eq!(get_config(&global, 0), None);
}

#[test]
fn settings_give_back_what_they_were_made_of() {
    let config = guild_config();
    assert_eq!(config.welcome_channel(), 1);
    assert_eq!(config.log_channel(), 2);
    assert_eq!(config.patron_role(), 10);
    assert_eq!(config.member_role(), 20);
    assert_eq!(config.patron_msg(), "thanks {{user}}");
    assert_eq!(config.welcome_msg(), "hi {{user}}");
}

#[test]
fn roles_are_found_by_value() {
    assert!(has_role(&vec![1, 2, 3], 3));
    assert!(has_role(&vec![1, 2, 3], 1));
    assert!(!has_role(&vec![1, 2, 3], 4));
    assert!(!has_role(&vec![], 0));
}

#[test]
fn trial_messages_stand_for_join_and_departure() {
    let message = |content: &str, guild_id: Option<u64>, bot: bool| {
        let mut author = user(55);
        author.bot = bot;
        Event::MessageCreate { guild_id, author, content: content.to_string() }
    };
    let global = store();
    assert_eq!(
        debug_handler(&global, &message("ww", Some(100), false), NOW),
        handle_join(&global, 100, &user(55), NOW)
    );
    assert_eq!(
        debug_handler(&global, &message("zz", Some(100), false), NOW),
        handle_leave(&global, 100, &user(55), NOW)
    );
    assert_eq!(debug_handler(&global, &message("w", Some(100), false), NOW), Plan::none());
    assert_eq!(debug_handler(&global, &message("ww", None, false), NOW), Plan::none());
    assert_eq!(debug_handler(&global, &message("ww", Some(100), true), NOW), Plan::none());
    assert_eq!(debug_handler(&global, &Event::Other, NOW), Plan::none());
    assert_eq!(handler(&global, &message("ww", Some(100), false), NOW), Plan::none());
}
