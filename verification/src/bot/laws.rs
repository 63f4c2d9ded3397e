//! What holds of the handlers and of the delayed greeting on every input.
use crate::bot::greet::{
    spec_greet_run, spec_handle_join, spec_handle_leave, spec_handler,
    ConfigView, GreetState, Reply, StepView,
};
use crate::bot::{idle, spec_dispatch, spec_run_handler, Config, Handler};
use crate::model::{Event, User};
use crate::text::{lemma_decimal_injective, mention_text};
use vstd::prelude::*;

verus! {

/// In a guild without settings a join and a departure ask for nothing, so no
/// platform call is made.
pub proof fn lemma_unconfigured_guild_is_left_alone(
    config: Config,
    guild: u64,
    user: User,
    now: i64,
)
    requires
        !config.has(guild),
    ensures
        spec_handle_join(config, guild, user, now) == idle(),
        spec_handle_leave(config, guild, user, now) == idle(),
        idle().actions.len() == 0,
        idle().failure is None,
{
}

/// No entry of the store serves two guilds: the key of a guild is the key of
/// no other.
pub proof fn lemma_guilds_do_not_share_settings(config: Config, a: u64, b: u64, i: int)
    requires
        config.is_entry_of(a, i),
        config.is_entry_of(b, i),
    ensures
        a == b,
{
    lemma_decimal_injective(a as nat, b as nat);
}

/// Nothing is asked for on behalf of a bot account that joins or leaves.
pub proof fn lemma_bots_are_left_alone(config: Config, event: Event, now: i64)
    requires
        match event {
            Event::MemberAdd { user, .. } => user.bot,
            Event::MemberRemove { user, .. } => user.bot,
            _ => false,
        },
    ensures
        spec_handler(config, event, now) == idle(),
{
}

/// A greeting never takes more than five steps.
pub proof fn lemma_run_is_short(
    config: ConfigView,
    guild: u64,
    user: u64,
    replies: Seq<Reply>,
)
    ensures
        spec_greet_run(config, guild, user, GreetState::Waiting, replies).len() <= 5,
{
    reveal_with_fuel(spec_greet_run, 7);
}

/// A member who already holds the member role when the record is fetched is
/// skipped: the greeting fetches, stops, and neither grants a role nor sends a
/// message, whatever replies might follow.
pub proof fn lemma_member_is_skipped(
    config: ConfigView,
    guild: u64,
    user: u64,
    roles: Vec<u64>,
    replies: Seq<Reply>,
)
    requires
        replies.len() >= 2,
        replies[0] == Reply::Elapsed,
        replies[1] == (Reply::Member { roles }),
        roles@.contains(config.member_role),
    ensures
        spec_greet_run(config, guild, user, GreetState::Waiting, replies) == seq![
            StepView::FetchMember { guild, user },
            StepView::Skip,
        ],
{
    reveal_with_fuel(spec_greet_run, 4);
    assert(replies.drop_first()[0] == replies[1]);
    assert(spec_greet_run(config, guild, user, GreetState::Waiting, replies) =~= seq![
        StepView::FetchMember { guild, user },
        StepView::Skip,
    ]);
}

/// A patron who does not yet hold the member role is granted it right after
/// the fetch and before anything is rendered or sent. Only the patron
/// template is ever rendered, a message goes out only as the fourth step, and
/// where the grant fails the greeting stops with three steps taken.
pub proof fn lemma_patron_is_granted_first(
    config: ConfigView,
    guild: u64,
    user: u64,
    roles: Vec<u64>,
    replies: Seq<Reply>,
)
    requires
        replies.len() >= 2,
        replies[0] == Reply::Elapsed,
        replies[1] == (Reply::Member { roles }),
        !roles@.contains(config.member_role),
        roles@.contains(config.patron_role),
    ensures
        ({
            let run = spec_greet_run(config, guild, user, GreetState::Waiting, replies);
            &&& run.len() >= 2
            &&& run[0] == (StepView::FetchMember { guild, user })
            &&& run[1] == (StepView::AddRole { guild, user, role: config.member_role })
            &&& forall|i: int| 0 <= i < run.len() && run[i] is AddRole ==> i == 1
            &&& forall|i: int|
                0 <= i < run.len() && run[i] is Render ==> i == 2 && run[i] == (StepView::Render {
                    template: config.patron_msg,
                    user: mention_text(user),
                })
            &&& forall|i: int|
                0 <= i < run.len() && run[i] is SendMessage ==> i == 3 && run[2] is Render
                    && run[i]->channel == config.welcome_channel
            &&& replies.len() >= 3 && !(replies[2] is RoleAdded) ==> run.len() == 3
                && run[2] is Abort
        }),
{
    reveal_with_fuel(spec_greet_run, 7);
    let r1 = replies.drop_first();
    let r2 = r1.drop_first();
    assert(r1[0] == replies[1]);
    if replies.len() >= 3 {
        assert(r2[0] == replies[2]);
    }
}

/// A member who holds neither role is never granted one: the welcome
/// template is rendered right after the fetch, and no other template is.
pub proof fn lemma_newcomer_is_welcomed(
    config: ConfigView,
    guild: u64,
    user: u64,
    roles: Vec<u64>,
    replies: Seq<Reply>,
)
    requires
        replies.len() >= 2,
        replies[0] == Reply::Elapsed,
        replies[1] == (Reply::Member { roles }),
        !roles@.contains(config.member_role),
        !roles@.contains(config.patron_role),
    ensures
        ({
            let run = spec_greet_run(config, guild, user, GreetState::Waiting, replies);
            &&& run.len() >= 2
            &&& run[0] == (StepView::FetchMember { guild, user })
            &&& run[1] == (StepView::Render {
                template: config.welcome_msg,
                user: mention_text(user),
            })
            &&& forall|i: int| 0 <= i < run.len() ==> !(run[i] is AddRole)
            &&& forall|i: int| 0 <= i < run.len() && run[i] is Render ==> i == 1
            &&& forall|i: int|
                0 <= i < run.len() && run[i] is SendMessage ==> i == 2 && run[i]->channel
                    == config.welcome_channel
        }),
{
    reveal_with_fuel(spec_greet_run, 7);
    let r1 = replies.drop_first();
    assert(r1[0] == replies[1]);
}

/// A greeting that is fed the replies it waits for delivers the rendered
/// text to the welcome channel: for a newcomer in four steps, for a patron in
/// five with the grant second.
pub proof fn lemma_greeting_is_delivered(
    config: ConfigView,
    guild: u64,
    user: u64,
    roles: Vec<u64>,
    text: String,
)
    requires
        !roles@.contains(config.member_role),
    ensures
        !roles@.contains(config.patron_role) ==> spec_greet_run(
            config,
            guild,
            user,
            GreetState::Waiting,
            seq![Reply::Elapsed, Reply::Member { roles }, Reply::Rendered { text }, Reply::Sent],
        ) == seq![
            StepView::FetchMember { guild, user },
            StepView::Render { template: config.welcome_msg, user: mention_text(user) },
            StepView::SendMessage { channel: config.welcome_channel, content: text@ },
            StepView::Done,
        ],
        roles@.contains(config.patron_role) ==> spec_greet_run(
            config,
            guild,
            user,
            GreetState::Waiting,
            seq![
                Reply::Elapsed,
                Reply::Member { roles },
                Reply::RoleAdded,
                Reply::Rendered { text },
                Reply::Sent,
            ],
        ) == seq![
            StepView::FetchMember { guild, user },
            StepView::AddRole { guild, user, role: config.member_role },
            StepView::Render { template: config.patron_msg, user: mention_text(user) },
            StepView::SendMessage { channel: config.welcome_channel, content: text@ },
            StepView::Done,
        ],
{
    reveal_with_fuel(spec_greet_run, 7);
    let short = seq![
        Reply::Elapsed,
        Reply::Member { roles },
        Reply::Rendered { text },
        Reply::Sent,
    ];
    let long = seq![
        Reply::Elapsed,
        Reply::Member { roles },
        Reply::RoleAdded,
        Reply::Rendered { text },
        Reply::Sent,
    ];
    assert(short.drop_first() =~= seq![Reply::Member { roles }, Reply::Rendered { text }, Reply::Sent]);
    assert(short.drop_first().drop_first() =~= seq![Reply::Rendered { text }, Reply::Sent]);
    assert(short.drop_first().drop_first().drop_first() =~= seq![Reply::Sent]);
    assert(long.drop_first() =~= seq![
        Reply::Member { roles },
        Reply::RoleAdded,
        Reply::Rendered { text },
        Reply::Sent,
    ]);
    assert(long.drop_first().drop_first() =~= seq![
        Reply::RoleAdded,
        Reply::Rendered { text },
        Reply::Sent,
    ]);
    assert(long.drop_first().drop_first().drop_first() =~= seq![
        Reply::Rendered { text },
        Reply::Sent,
    ]);
    assert(long.drop_first().drop_first().drop_first().drop_first() =~= seq![Reply::Sent]);
    if roles@.contains(config.patron_role) {
        assert(spec_greet_run(config, guild, user, GreetState::Waiting, long) =~= seq![
            StepView::FetchMember { guild, user },
            StepView::AddRole { guild, user, role: config.member_role },
            StepView::Render { template: config.patron_msg, user: mention_text(user) },
            StepView::SendMessage { channel: config.welcome_channel, content: text@ },
            StepView::Done,
        ]);
    } else {
        assert(spec_greet_run(config, guild, user, GreetState::Waiting, short) =~= seq![
            StepView::FetchMember { guild, user },
            StepView::Render { template: config.welcome_msg, user: mention_text(user) },
            StepView::SendMessage { channel: config.welcome_channel, content: text@ },
            StepView::Done,
        ]);
    }
}

/// The dispatcher isolates faults: every handler of the list gets the event,
/// in the list's order, and the plan of each is what that handler alone
/// decides, whether or not another handler's plan holds a failure.
pub proof fn lemma_every_handler_runs(
    handlers: Seq<Handler>,
    config: Config,
    event: Event,
    now: i64,
    k: int,
)
    requires
        0 <= k < handlers.len(),
        spec_run_handler(handlers[k], config, event, now).failure is Some,
    ensures
        spec_dispatch(handlers, config, event, now).len() == handlers.len(),
        forall|i: int|
            0 <= i < handlers.len() ==> spec_dispatch(handlers, config, event, now)[i]
                == spec_run_handler(handlers[i], config, event, now),
{
}

} // verus!
