//! Join and leave handling: the audit embed, and the delayed greeting as a
//! step function that the surrounding program drives.
use crate::bot::{idle, Action, ActionView, Plan, PlanView};
use crate::ext::{tuple_text, UserExt};
use crate::model::{Embed, EmbedField, EmbedFieldView, EmbedView, Event, GreetError, User};
use crate::text::{
    creation_secs, decimal, decimal_string, image_url_accepted, image_url_ok,
    mention_text, millis_to_secs, relative_time_mention, relative_time_text, snowflake_millis,
    timestamp_accepted, timestamp_ok, user_mention,
};
use crate::{COLOR_GREEN, COLOR_RED};
use vstd::prelude::*;
use vstd::string::*;

verus! {

/// Seconds between a join and the greeting that follows it.
pub const GREET_DELAY_SECS: u64 = 5;

/// One guild's greeting settings.
#[derive(Debug, PartialEq, Eq)]
pub struct Config {
    welcome_channel: u64,
    log_channel: u64,
    patron_role: u64,
    member_role: u64,
    patron_msg: String,
    welcome_msg: String,
}

/// One guild's settings as plain values.
pub struct ConfigView {
    pub welcome_channel: u64,
    pub log_channel: u64,
    pub patron_role: u64,
    pub member_role: u64,
    pub patron_msg: Seq<char>,
    pub welcome_msg: Seq<char>,
}

impl View for Config {
    type V = ConfigView;

    closed spec fn view(&self) -> ConfigView {
        ConfigView {
            welcome_channel: self.welcome_channel,
            log_channel: self.log_channel,
            patron_role: self.patron_role,
            member_role: self.member_role,
            patron_msg: self.patron_msg@,
            welcome_msg: self.welcome_msg@,
        }
    }
}

impl Clone for Config {
    fn clone(&self) -> (copy: Config)
        ensures
            copy@ == self@,
    {
        Config {
            welcome_channel: self.welcome_channel,
            log_channel: self.log_channel,
            patron_role: self.patron_role,
            member_role: self.member_role,
            patron_msg: self.patron_msg.clone(),
            welcome_msg: self.welcome_msg.clone(),
        }
    }
}

impl Config {
    /// Settings made of their six parts.
    pub fn new(
        welcome_channel: u64,
        log_channel: u64,
        patron_role: u64,
        member_role: u64,
        patron_msg: String,
        welcome_msg: String,
    ) -> (config: Config)
        ensures
            config@ == (ConfigView {
                welcome_channel,
                log_channel,
                patron_role,
                member_role,
                patron_msg: patron_msg@,
                welcome_msg: welcome_msg@,
            }),
    {
        Config { welcome_channel, log_channel, patron_role, member_role, patron_msg, welcome_msg }
    }

    /// The channel that greetings go to.
    pub fn welcome_channel(&self) -> (id: u64)
        ensures
            id == self@.welcome_channel,
    {
        self.welcome_channel
    }

    /// The channel that audit embeds go to.
    pub fn log_channel(&self) -> (id: u64)
        ensures
            id == self@.log_channel,
    {
        self.log_channel
    }

    /// The role that marks a patron.
    pub fn patron_role(&self) -> (id: u64)
        ensures
            id == self@.patron_role,
    {
        self.patron_role
    }

    /// The role that marks a greeted member.
    pub fn member_role(&self) -> (id: u64)
        ensures
            id == self@.member_role,
    {
        self.member_role
    }

    /// The template that greets a patron.
    pub fn patron_msg(&self) -> (template: &String)
        ensures
            template@ == self@.patron_msg,
    {
        &self.patron_msg
    }

    /// The template that greets anyone else.
    pub fn welcome_msg(&self) -> (template: &String)
        ensures
            template@ == self@.welcome_msg,
    {
        &self.welcome_msg
    }
}

/// An independent copy of a guild's settings, if the guild has any.
pub fn get_config(global: &super::Config, guild: u64) -> (found: Option<Config>)
    ensures
        found is Some <==> global.has(guild),
        found is Some ==> found->0@ == global.of(guild),
{
    match global.lookup(guild) {
        Some(config) => Some(config.clone()),
        None => None,
    }
}

/// Address of an account's avatar at 128 pixels.
pub open spec fn avatar_url(id: u64, avatar: Seq<char>) -> Seq<char> {
    "https://cdn.discordapp.com/avatars/"@ + decimal(id as nat) + "/"@ + avatar + ".png?size=128"@
}

/// The inline field that shows an account's id.
pub open spec fn id_field(id: u64) -> EmbedFieldView {
    EmbedFieldView { name: "ID"@, value: decimal(id as nat), inline: true }
}

/// The inline field that shows when an account was created, as a relative
/// time that the id encodes.
pub open spec fn created_field(id: u64) -> EmbedFieldView {
    EmbedFieldView {
        name: "Account created"@,
        value: relative_time_text(creation_secs(id) as u64),
        inline: true,
    }
}

/// The optional thumbnail of an account's audit embed.
pub open spec fn thumbnail_of(user: User) -> Option<Seq<char>> {
    match user.avatar {
        Some(avatar) => Some(avatar_url(user.id, avatar@)),
        None => None,
    }
}

/// The part of an audit embed that arrivals and departures share: who, the id
/// field, when, and the avatar. It fails only where the time does not fit.
pub open spec fn spec_prepare_embed(user: User, now: i64) -> Result<EmbedView, GreetError> {
    spec_assemble_embed(user, now, timestamp_accepted(now))
}

/// The shared part of an audit embed, given whether the platform's timestamp
/// can hold `now`.
pub open spec fn spec_assemble_embed(user: User, now: i64, time_fits: bool) -> Result<
    EmbedView,
    GreetError,
> {
    if time_fits {
        Ok(
            EmbedView {
                title: None,
                description: tuple_text(user.name@, user.discriminator) + " ("@ + mention_text(
                    user.id,
                ) + ")"@,
                color: None,
                fields: seq![id_field(user.id)],
                timestamp: now,
                thumbnail: thumbnail_of(user),
            },
        )
    } else {
        Err(GreetError::Timestamp)
    }
}

/// Every avatar address begins with a scheme that the embed builder takes.
pub proof fn lemma_avatar_url_accepted(id: u64, avatar: Seq<char>)
    ensures
        image_url_accepted(avatar_url(id, avatar)),
{
    reveal_strlit("https://cdn.discordapp.com/avatars/");
    reveal_strlit("https:");
    let url = avatar_url(id, avatar);
    assert(url.subrange(0, 6) =~= "https:"@);
}

/// The view of an embed or the error in its place.
pub open spec fn prepared_view(prepared: Result<Embed, GreetError>) -> Result<
    EmbedView,
    GreetError,
> {
    match prepared {
        Ok(embed) => Ok(embed@),
        Err(error) => Err(error),
    }
}

/// Builds the shared part of an audit embed, stamped with `now`.
pub fn prepare_embed(user: &User, now: i64) -> (prepared: Result<Embed, GreetError>)
    requires
        user.wf(),
    ensures
        prepared is Ok <==> timestamp_accepted(now),
        prepared_view(prepared) == spec_prepare_embed(*user, now),
{
    let time_fits = timestamp_ok(now);
    assemble_embed(user, now, time_fits)
}

/// Builds the shared part of an audit embed for a time of which the caller
/// knows whether the platform's timestamp can hold it.
pub fn assemble_embed(user: &User, now: i64, time_fits: bool) -> (prepared: Result<
    Embed,
    GreetError,
>)
    requires
        user.wf(),
    ensures
        prepared is Ok <==> time_fits,
        prepared_view(prepared) == spec_assemble_embed(*user, now, time_fits),
{
    let id_text = decimal_string(user.id);
    let user_id_field = EmbedField { name: String::from_str("ID"), value: id_text, inline: true };
    let mention = user_mention(user.id);
    let mut description = user.as_tuple().to_text();
    description.append(" (");
    description.append(mention.as_str());
    description.append(")");
    let mut fields: Vec<EmbedField> = Vec::new();
    fields.push(user_id_field);
    if !time_fits {
        return Err(GreetError::Timestamp);
    }
    let mut thumbnail: Option<String> = None;
    if let Some(avatar) = &user.avatar {
        let mut url = String::from_str("https://cdn.discordapp.com/avatars/");
        let digits = decimal_string(user.id);
        url.append(digits.as_str());
        url.append("/");
        url.append(avatar.as_str());
        url.append(".png?size=128");
        proof {
            lemma_avatar_url_accepted(user.id, avatar@);
        }
        if !image_url_ok(url.as_str()) {
            return Err(GreetError::Thumbnail);
        }
        thumbnail = Some(url);
    }
    let embed = Embed { title: None, description, color: None, fields, timestamp: now, thumbnail };
    assert(embed@.fields =~= seq![id_field(user.id)]);
    Ok(embed)
}

/// The audit embed of an arrival: the shared part, titled, in green, with
/// the account's age as a second field.
pub open spec fn spec_join_embed(user: User, now: i64) -> Result<EmbedView, GreetError> {
    match spec_prepare_embed(user, now) {
        Ok(embed) => Ok(
            EmbedView {
                title: Some("Member joined"@),
                color: Some(COLOR_GREEN),
                fields: embed.fields.push(created_field(user.id)),
                ..embed
            },
        ),
        Err(error) => Err(error),
    }
}

/// The audit embed of a departure: the shared part, titled, in red.
pub open spec fn spec_leave_embed(user: User, now: i64) -> Result<EmbedView, GreetError> {
    match spec_prepare_embed(user, now) {
        Ok(embed) => Ok(
            EmbedView { title: Some("Member left"@), color: Some(COLOR_RED), ..embed },
        ),
        Err(error) => Err(error),
    }
}

/// What a join asks for. Nothing in a guild without settings. Otherwise the
/// delayed greeting first, then the audit embed to the log channel; where the
/// embed cannot be built the greeting is still scheduled and the plan fails.
pub open spec fn spec_handle_join(
    global: super::Config,
    guild: u64,
    user: User,
    now: i64,
) -> PlanView {
    if global.has(guild) {
        let config = global.of(guild);
        let greet = ActionView::ScheduleGreet {
            delay_secs: GREET_DELAY_SECS,
            guild,
            user: user.id,
            config,
        };
        match spec_join_embed(user, now) {
            Ok(embed) => PlanView {
                actions: seq![greet, ActionView::SendEmbed { channel: config.log_channel, embed }],
                failure: None,
            },
            Err(error) => PlanView { actions: seq![greet], failure: Some(error) },
        }
    } else {
        idle()
    }
}

/// What a departure asks for: nothing in a guild without settings, otherwise
/// the audit embed to the log channel.
pub open spec fn spec_handle_leave(
    global: super::Config,
    guild: u64,
    user: User,
    now: i64,
) -> PlanView {
    if global.has(guild) {
        match spec_leave_embed(user, now) {
            Ok(embed) => PlanView {
                actions: seq![
                    ActionView::SendEmbed { channel: global.of(guild).log_channel, embed },
                ],
                failure: None,
            },
            Err(error) => PlanView { actions: Seq::empty(), failure: Some(error) },
        }
    } else {
        idle()
    }
}

/// The relative-time tag of the moment at which an account was created.
fn creation_mention(id: u64) -> (text: String)
    requires
        id != 0,
    ensures
        text@ == relative_time_text(creation_secs(id) as u64),
{
    assert((id >> 22) <= 0x3ff_ffff_ffffu64) by (bit_vector);
    let millis = snowflake_millis(id);
    let secs = millis_to_secs(millis);
    relative_time_mention(secs as u64)
}

/// Plans what a join asks for.
pub fn handle_join(config: &super::Config, guild: u64, user: &User, now: i64) -> (plan: Plan)
    requires
        user.wf(),
    ensures
        plan@ == spec_handle_join(*config, guild, *user, now),
{
    let settings = match get_config(config, guild) {
        Some(settings) => settings,
        None => {
            return Plan::none();
        },
    };
    let channel = settings.log_channel;
    let mut actions: Vec<Action> = Vec::new();
    actions.push(
        Action::ScheduleGreet {
            delay_secs: GREET_DELAY_SECS,
            guild,
            user: user.id,
            config: settings,
        },
    );
    let user_creation_field = EmbedField {
        name: String::from_str("Account created"),
        value: creation_mention(user.id),
        inline: true,
    };
    let prepared = prepare_embed(user, now);
    match prepared {
        Ok(shared) => {
            let mut fields = shared.fields;
            fields.push(user_creation_field);
            let embed = Embed {
                title: Some(String::from_str("Member joined")),
                description: shared.description,
                color: Some(COLOR_GREEN),
                fields,
                timestamp: shared.timestamp,
                thumbnail: shared.thumbnail,
            };
            assert(embed@.fields =~= shared@.fields.push(created_field(user.id)));
            assert(Ok::<EmbedView, GreetError>(embed@) == spec_join_embed(*user, now));
            actions.push(Action::SendEmbed { channel, embed });
            let plan = Plan { actions, failure: None };
            assert(plan@.actions =~= spec_handle_join(*config, guild, *user, now).actions);
            plan
        },
        Err(error) => {
            let plan = Plan { actions, failure: Some(error) };
            assert(plan@.actions =~= spec_handle_join(*config, guild, *user, now).actions);
            plan
        },
    }
}

/// Plans what a departure asks for.
pub fn handle_leave(config: &super::Config, guild: u64, user: &User, now: i64) -> (plan: Plan)
    requires
        user.wf(),
    ensures
        plan@ == spec_handle_leave(*config, guild, *user, now),
{
    let settings = match get_config(config, guild) {
        Some(settings) => settings,
        None => {
            return Plan::none();
        },
    };
    let channel = settings.log_channel;
    let mut actions: Vec<Action> = Vec::new();
    let prepared = prepare_embed(user, now);
    match prepared {
        Ok(shared) => {
            let embed = Embed {
                title: Some(String::from_str("Member left")),
                description: shared.description,
                color: Some(COLOR_RED),
                fields: shared.fields,
                timestamp: shared.timestamp,
                thumbnail: shared.thumbnail,
            };
            assert(Ok::<EmbedView, GreetError>(embed@) == spec_leave_embed(*user, now));
            actions.push(Action::SendEmbed { channel, embed });
            let plan = Plan { actions, failure: None };
            assert(plan@.actions =~= spec_handle_leave(*config, guild, *user, now).actions);
            plan
        },
        Err(error) => {
            let plan = Plan { actions, failure: Some(error) };
            assert(plan@.actions =~= spec_handle_leave(*config, guild, *user, now).actions);
            plan
        },
    }
}

/// What the greeting handler asks for: joins and departures of accounts that
/// are not bots go to their paths, everything else is left alone.
pub open spec fn spec_handler(global: super::Config, event: Event, now: i64) -> PlanView {
    match event {
        Event::MemberAdd { guild_id, user } => if user.bot {
            idle()
        } else {
            spec_handle_join(global, guild_id, user, now)
        },
        Event::MemberRemove { guild_id, user } => if user.bot {
            idle()
        } else {
            spec_handle_leave(global, guild_id, user, now)
        },
        _ => idle(),
    }
}

/// The greeting handler.
pub fn handler(config: &super::Config, event: &Event, now: i64) -> (plan: Plan)
    requires
        event.wf(),
    ensures
        plan@ == spec_handler(*config, *event, now),
{
    match event {
        Event::MemberAdd { guild_id, user } => {
            if !user.bot {
                handle_join(config, *guild_id, user, now)
            } else {
                Plan::none()
            }
        },
        Event::MemberRemove { guild_id, user } => {
            if !user.bot {
                handle_leave(config, *guild_id, user, now)
            } else {
                Plan::none()
            }
        },
        _ => Plan::none(),
    }
}

/// What the trial handler asks for: a message `ww` written in a guild by an
/// account that is no bot is treated as its author's arrival, `zz` as its
/// departure.
pub open spec fn spec_debug_handler(global: super::Config, event: Event, now: i64) -> PlanView {
    match event {
        Event::MessageCreate { guild_id: Some(guild), author, content } => if author.bot {
            idle()
        } else if content@ == "ww"@ {
            spec_handle_join(global, guild, author, now)
        } else if content@ == "zz"@ {
            spec_handle_leave(global, guild, author, now)
        } else {
            idle()
        },
        _ => idle(),
    }
}

/// The trial handler, which is not registered.
pub fn debug_handler(config: &super::Config, event: &Event, now: i64) -> (plan: Plan)
    requires
        event.wf(),
    ensures
        plan@ == spec_debug_handler(*config, *event, now),
{
    match event {
        Event::MessageCreate { guild_id, author, content } => {
            if !author.bot {
                if let Some(guild) = guild_id {
                    if *content == String::from_str("ww") {
                        handle_join(config, *guild, author, now)
                    } else if *content == String::from_str("zz") {
                        handle_leave(config, *guild, author, now)
                    } else {
                        Plan::none()
                    }
                } else {
                    Plan::none()
                }
            } else {
                Plan::none()
            }
        },
        _ => Plan::none(),
    }
}

/// Where a delayed greeting stands: what it is waiting for.
#[derive(Clone, Copy, Debug, PartialEq, Eq, Structural)]
pub enum GreetState {
    /// For the delay to pass.
    Waiting,
    /// For the member's record.
    FetchingMember,
    /// For the member role to be granted to a patron.
    GrantingRole,
    /// For the template to be rendered.
    Rendering,
    /// For the message to be delivered.
    Sending,
    /// For nothing: the greeting is over.
    Finished,
}

/// What came back from the work that the previous step asked for.
#[derive(Clone, Debug, PartialEq, Eq)]
pub enum Reply {
    /// The delay has passed.
    Elapsed,
    /// The member's record, with the roles held.
    Member { roles: Vec<u64> },
    /// The role was granted.
    RoleAdded,
    /// The rendered template.
    Rendered { text: String },
    /// The message was delivered.
    Sent,
    /// The work failed.
    Failed,
}

/// What a delayed greeting asks for next, or how it ended.
#[derive(Clone, Debug, PartialEq, Eq)]
#[allow(inconsistent_fields)]
pub enum Step {
    FetchMember { guild: u64, user: u64 },
    AddRole { guild: u64, user: u64, role: u64 },
    /// Render `template` with `user` as the value of its one placeholder.
    Render { template: String, user: String },
    SendMessage { channel: u64, content: String },
    /// The member holds the member role already: warn and stop.
    Skip,
    /// The greeting was delivered.
    Done,
    /// The greeting gave up.
    Abort { error: GreetError },
}

/// A step as plain values.
#[allow(inconsistent_fields)]
pub enum StepView {
    FetchMember { guild: u64, user: u64 },
    AddRole { guild: u64, user: u64, role: u64 },
    Render { template: Seq<char>, user: Seq<char> },
    SendMessage { channel: u64, content: Seq<char> },
    Skip,
    Done,
    Abort { error: GreetError },
}

impl View for Step {
    type V = StepView;

    open spec fn view(&self) -> StepView {
        match *self {
            Step::FetchMember { guild, user } => StepView::FetchMember { guild, user },
            Step::AddRole { guild, user, role } => StepView::AddRole { guild, user, role },
            Step::Render { template, user } => StepView::Render {
                template: template@,
                user: user@,
            },
            Step::SendMessage { channel, content } => StepView::SendMessage {
                channel,
                content: content@,
            },
            Step::Skip => StepView::Skip,
            Step::Done => StepView::Done,
            Step::Abort { error } => StepView::Abort { error },
        }
    }
}

/// The end of a greeting that met a reply it was not waiting for.
pub open spec fn unexpected() -> (GreetState, StepView) {
    (GreetState::Finished, StepView::Abort { error: GreetError::Unexpected })
}

/// The end of a greeting whose platform call failed.
pub open spec fn platform_failure() -> (GreetState, StepView) {
    (GreetState::Finished, StepView::Abort { error: GreetError::Platform })
}

/// The request to render one of the guild's templates for a user.
pub open spec fn render_step(template: Seq<char>, user: u64) -> (GreetState, StepView) {
    (GreetState::Rendering, StepView::Render { template, user: mention_text(user) })
}

/// One move of the delayed greeting. After the delay the member is fetched.
/// A member who holds the member role is skipped; a patron is granted the
/// member role and then greeted with the patron template; anyone else is
/// greeted with the welcome template. The rendered text goes to the welcome
/// channel. A failure at any point ends the greeting.
pub open spec fn spec_greet_member(
    config: ConfigView,
    guild: u64,
    user: u64,
    state: GreetState,
    reply: Reply,
) -> (GreetState, StepView) {
    match state {
        GreetState::Waiting => match reply {
            Reply::Elapsed => (GreetState::FetchingMember, StepView::FetchMember { guild, user }),
            _ => unexpected(),
        },
        GreetState::FetchingMember => match reply {
            Reply::Member { roles } => if roles@.contains(config.member_role) {
                (GreetState::Finished, StepView::Skip)
            } else if roles@.contains(config.patron_role) {
                (
                    GreetState::GrantingRole,
                    StepView::AddRole { guild, user, role: config.member_role },
                )
            } else {
                render_step(config.welcome_msg, user)
            },
            Reply::Failed => platform_failure(),
            _ => unexpected(),
        },
        GreetState::GrantingRole => match reply {
            Reply::RoleAdded => render_step(config.patron_msg, user),
            Reply::Failed => platform_failure(),
            _ => unexpected(),
        },
        GreetState::Rendering => match reply {
            Reply::Rendered { text } => (
                GreetState::Sending,
                StepView::SendMessage { channel: config.welcome_channel, content: text@ },
            ),
            Reply::Failed => (GreetState::Finished, StepView::Abort { error: GreetError::Render }),
            _ => unexpected(),
        },
        GreetState::Sending => match reply {
            Reply::Sent => (GreetState::Finished, StepView::Done),
            Reply::Failed => platform_failure(),
            _ => unexpected(),
        },
        GreetState::Finished => unexpected(),
    }
}

/// Whether a role is among those that a member holds.
pub fn has_role(roles: &Vec<u64>, role: u64) -> (held: bool)
    ensures
        held == roles@.contains(role),
{
    let mut i: usize = 0;
    while i < roles.len()
        invariant
            i <= roles.len(),
            forall|j: int| 0 <= j < i ==> roles@[j] != role,
        decreases roles.len() - i,
    {
        if roles[i] == role {
            return true;
        }
        i += 1;
    }
    false
}

/// The step that ends a greeting with an error.
fn abort(error: GreetError) -> (end: (GreetState, Step))
    ensures
        end.0 == GreetState::Finished,
        end.1@ == (StepView::Abort { error }),
{
    (GreetState::Finished, Step::Abort { error })
}

/// The step that asks for a template to be rendered for a user.
fn render(template: &String, user: u64) -> (next: (GreetState, Step))
    requires
        user != 0,
    ensures
        next.0 == render_step(template@, user).0,
        next.1@ == render_step(template@, user).1,
{
    (GreetState::Rendering, Step::Render { template: template.clone(), user: user_mention(user) })
}

/// Takes one step of a delayed greeting: from where it stands and what came
/// back, to where it stands next and what it asks for.
pub fn greet_member(
    config: &Config,
    guild: u64,
    user: u64,
    state: GreetState,
    reply: &Reply,
) -> (next: (GreetState, Step))
    requires
        user != 0,
    ensures
        next.0 == spec_greet_member(config@, guild, user, state, *reply).0,
        next.1@ == spec_greet_member(config@, guild, user, state, *reply).1,
{
    match state {
        GreetState::Waiting => match reply {
            Reply::Elapsed => (GreetState::FetchingMember, Step::FetchMember { guild, user }),
            _ => abort(GreetError::Unexpected),
        },
        GreetState::FetchingMember => match reply {
            Reply::Member { roles } => {
                if has_role(roles, config.member_role) {
                    (GreetState::Finished, Step::Skip)
                } else if has_role(roles, config.patron_role) {
                    (
                        GreetState::GrantingRole,
                        Step::AddRole { guild, user, role: config.member_role },
                    )
                } else {
                    render(&config.welcome_msg, user)
                }
            },
            Reply::Failed => abort(GreetError::Platform),
            _ => abort(GreetError::Unexpected),
        },
        GreetState::GrantingRole => match reply {
            Reply::RoleAdded => render(&config.patron_msg, user),
            Reply::Failed => abort(GreetError::Platform),
            _ => abort(GreetError::Unexpected),
        },
        GreetState::Rendering => match reply {
            Reply::Rendered { text } => (
                GreetState::Sending,
                Step::SendMessage { channel: config.welcome_channel, content: text.clone() },
            ),
            Reply::Failed => abort(GreetError::Render),
            _ => abort(GreetError::Unexpected),
        },
        GreetState::Sending => match reply {
            Reply::Sent => (GreetState::Finished, Step::Done),
            Reply::Failed => abort(GreetError::Platform),
            _ => abort(GreetError::Unexpected),
        },
        GreetState::Finished => abort(GreetError::Unexpected),
    }
}

/// The steps that a greeting takes from `state` when it is fed `replies` in
/// order, up to the step that ends it.
pub open spec fn spec_greet_run(
    config: ConfigView,
    guild: u64,
    user: u64,
    state: GreetState,
    replies: Seq<Reply>,
) -> Seq<StepView>
    decreases replies.len(),
{
    if replies.len() == 0 || state == GreetState::Finished {
        Seq::empty()
    } else {
        let next = spec_greet_member(config, guild, user, state, replies[0]);
        seq![next.1] + spec_greet_run(config, guild, user, next.0, replies.drop_first())
    }
}

/// The views of a list of steps, in order.
pub open spec fn steps_view(steps: Seq<Step>) -> Seq<StepView> {
    steps.map_values(|s: Step| s@)
}

/// Runs a greeting from its start over a script of replies and returns the
/// steps it took. Replies after the step that ends the greeting are not read.
pub fn greet_run(config: &Config, guild: u64, user: u64, replies: &Vec<Reply>) -> (steps: Vec<Step>)
    requires
        user != 0,
    ensures
        steps_view(steps@) == spec_greet_run(
            config@,
            guild,
            user,
            GreetState::Waiting,
            replies@,
        ),
{
    let mut steps: Vec<Step> = Vec::new();
    let mut state = GreetState::Waiting;
    let mut i: usize = 0;
    assert(replies@.skip(0) =~= replies@);
    assert(steps_view(steps@) =~= Seq::empty());
    while i < replies.len() && state != GreetState::Finished
        invariant
            user != 0,
            i <= replies.len(),
            spec_greet_run(config@, guild, user, GreetState::Waiting, replies@) == steps_view(
                steps@,
            ) + spec_greet_run(config@, guild, user, state, replies@.skip(i as int)),
        decreases replies.len() - i,
    {
        let next = greet_member(config, guild, user, state, &replies[i]);
        proof {
            let rest = replies@.skip(i as int);
            assert(rest[0] == replies@[i as int]);
            assert(rest.drop_first() =~= replies@.skip(i + 1));
            assert(steps_view(steps@.push(next.1)) =~= steps_view(steps@).push(next.1@));
            assert(steps_view(steps@).push(next.1@) + spec_greet_run(
                config@,
                guild,
                user,
                next.0,
                replies@.skip(i + 1),
            ) =~= steps_view(steps@) + spec_greet_run(config@, guild, user, state, rest));
        }
        steps.push(next.1);
        state = next.0;
        i += 1;
    }
    assert(spec_greet_run(config@, guild, user, state, replies@.skip(i as int)) =~= Seq::empty());
    assert(steps_view(steps@) + Seq::<StepView>::empty() =~= steps_view(steps@));
    steps
}

} // verus!
