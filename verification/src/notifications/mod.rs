//! The notification dispatcher.
//!
//! Given alert-worthy statuses and a set of configured notifiers, the
//! dispatcher decides which deliveries the embedding program must launch,
//! each in its own isolated task. A failed delivery escalates exactly once:
//! the error is broadcast to every notifier. A failure while delivering an
//! error alert is only logged, never escalated again — escalation is
//! bounded at depth one.

pub mod discord;

use vstd::prelude::*;

use crate::config::Config;
use crate::notifications::discord::Discord;
use crate::notifications::discord::url_parse_ok;
use crate::status::UnitStatus;
use crate::status::UnitStatusView;
use crate::status::unit_status_views;

verus! {

/// An error arising while the set of notification providers is created.
#[derive(Debug)]
pub enum NotificationsError {
    /// The configured webhook URL could not be parsed.
    InvalidWebhookUrl(url::ParseError),
    /// No notification provider could be created from the configuration.
    NoProviderConfigured,
}

/// One configured notifier, as a tagged variant over the supported
/// channels.
pub enum Notifier {
    Discord(Discord),
}

/// Creates the default set of notification providers with the given
/// configuration. The list is not empty if `Ok` is returned. Any error
/// during the creation of any notification provider is returned and no
/// list is created.
pub fn create_notifications(config: &Config) -> (r: Result<Vec<Notifier>, NotificationsError>)
    ensures
        match config.discord_webhook_url {
            Some(u) => {
                &&& (r is Ok <==> url_parse_ok(u@))
                &&& (r matches Ok(l) ==> l@.len() == 1 && l@[0] is Discord)
                &&& (r matches Err(e) ==> e is InvalidWebhookUrl)
            },
            None => r matches Err(e) && e is NoProviderConfigured,
        },
{
    let mut notifications: Vec<Notifier> = Vec::new();
    if let Some(discord_webhook_url) = &config.discord_webhook_url {
        match Discord::new(discord_webhook_url.as_str()) {
            Ok(discord) => {
                notifications.push(Notifier::Discord(discord));
            },
            Err(e) => {
                return Err(e);
            },
        }
    }
    if notifications.len() == 0 {
        return Err(NotificationsError::NoProviderConfigured);
    }
    Ok(notifications)
}

/// One delivery the embedding program must launch, in a task of its own.
pub enum DispatchCommand {
    /// Deliver the given changed statuses through the notifier.
    SendStatus { notifier: usize, status: Vec<UnitStatus> },
    /// Deliver the start-up notification through the notifier.
    SendStart { notifier: usize },
    /// Deliver an error alert with the given description through the
    /// notifier.
    SendError { notifier: usize, message: String },
}

/// The mathematical value of a [`DispatchCommand`].
#[verifier::ext_equal]
pub enum DispatchCommandView {
    SendStatus { notifier: int, status: Seq<UnitStatusView> },
    SendStart { notifier: int },
    SendError { notifier: int, message: Seq<char> },
}

impl View for DispatchCommand {
    type V = DispatchCommandView;

    open spec fn view(&self) -> DispatchCommandView {
        match self {
            DispatchCommand::SendStatus { notifier, status } => DispatchCommandView::SendStatus {
                notifier: *notifier as int,
                status: unit_status_views(status@),
            },
            DispatchCommand::SendStart { notifier } => DispatchCommandView::SendStart {
                notifier: *notifier as int,
            },
            DispatchCommand::SendError { notifier, message } => DispatchCommandView::SendError {
                notifier: *notifier as int,
                message: message@,
            },
        }
    }
}

/// The views of a sequence of dispatch commands.
pub open spec fn dispatch_views(s: Seq<DispatchCommand>) -> Seq<DispatchCommandView> {
    s.map_values(|c: DispatchCommand| c@)
}

/// One status delivery per notifier, each handed the same statuses.
pub open spec fn spec_status_broadcast(n: nat, status: Seq<UnitStatusView>) -> Seq<
    DispatchCommandView,
> {
    Seq::new(n, |i: int| DispatchCommandView::SendStatus { notifier: i, status })
}

/// One start-up delivery per notifier.
pub open spec fn spec_start_broadcast(n: nat) -> Seq<DispatchCommandView> {
    Seq::new(n, |i: int| DispatchCommandView::SendStart { notifier: i })
}

/// One error-alert delivery per notifier, all carrying the same message.
pub open spec fn spec_error_broadcast(n: nat, message: Seq<char>) -> Seq<DispatchCommandView> {
    Seq::new(n, |i: int| DispatchCommandView::SendError { notifier: i, message })
}

/// What follows a completed delivery: nothing on success, nothing after an
/// error alert whatever its outcome, and the error broadcast after any
/// other failed delivery.
pub open spec fn spec_dispatch_reaction(
    n: nat,
    completed: DispatchCommandView,
    error: Option<Seq<char>>,
) -> Seq<DispatchCommandView> {
    match error {
        None => Seq::empty(),
        Some(message) => if completed is SendError {
            Seq::empty()
        } else {
            spec_error_broadcast(n, message)
        },
    }
}

/// Computes the error-alert dispatches for one failure: the error is
/// broadcast to every configured notifier, including the one that failed.
pub fn notify_error(notifications: &Vec<Notifier>, error: &String) -> (cmds: Vec<DispatchCommand>)
    ensures
        dispatch_views(cmds@) == spec_error_broadcast(notifications@.len(), error@),
{
    let mut cmds: Vec<DispatchCommand> = Vec::new();
    let n = notifications.len();
    let mut k: usize = 0;
    while k < n
        invariant
            0 <= k <= n,
            n == notifications@.len(),
            cmds@.len() == k,
            forall|idx: int|
                0 <= idx < k ==> #[trigger] cmds@[idx]@ == (DispatchCommandView::SendError {
                    notifier: idx,
                    message: error@,
                }),
        decreases n - k,
    {
        cmds.push(DispatchCommand::SendError { notifier: k, message: error.clone() });
        k = k + 1;
    }
    proof {
        assert(dispatch_views(cmds@) =~= spec_error_broadcast(notifications@.len(), error@));
    }
    cmds
}

/// Decides what follows a completed delivery. A failed status or start
/// delivery escalates exactly once, broadcasting the error to every
/// notifier. A failed error alert escalates nothing: the caller only logs
/// it. On success nothing follows.
pub fn handle_dispatch_result(
    notifications: &Vec<Notifier>,
    completed: &DispatchCommand,
    error: Option<&String>,
) -> (cmds: Vec<DispatchCommand>)
    ensures
        dispatch_views(cmds@) == spec_dispatch_reaction(
            notifications@.len(),
            completed@,
            match error {
                Some(e) => Some(e@),
                None => None,
            },
        ),
{
    match error {
        None => {
            let cmds: Vec<DispatchCommand> = Vec::new();
            proof {
                assert(dispatch_views(cmds@) =~= Seq::<DispatchCommandView>::empty());
            }
            cmds
        },
        Some(e) => match completed {
            DispatchCommand::SendError { .. } => {
                let cmds: Vec<DispatchCommand> = Vec::new();
                proof {
                    assert(dispatch_views(cmds@) =~= Seq::<DispatchCommandView>::empty());
                }
                cmds
            },
            _ => notify_error(notifications, e),
        },
    }
}

/// Law (non-recursive escalation): one failed status or start delivery
/// triggers exactly one error-alert dispatch per configured notifier, and
/// the reaction to a failed error alert is empty — so even when every
/// error alert of the broadcast fails in turn, no further escalation
/// follows.
pub proof fn lemma_non_recursive_escalation(
    n: nat,
    completed: DispatchCommandView,
    message: Seq<char>,
)
    ensures
        !(completed is SendError) ==> spec_dispatch_reaction(n, completed, Some(message))
            == spec_error_broadcast(n, message),
        spec_error_broadcast(n, message).len() == n,
        forall|j: int| 0 <= j < n ==> #[trigger] spec_error_broadcast(n, message)[j] is SendError,
        forall|j: int, m2: Seq<char>|
            0 <= j < n ==> #[trigger] spec_dispatch_reaction(
                n,
                spec_error_broadcast(n, message)[j],
                Some(m2),
            ) == Seq::<DispatchCommandView>::empty(),
{
}

} // verus!
