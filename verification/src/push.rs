//! Pushing metrics: what to do next after each thing that happens.
use crate::config::Config;
use crate::metrics;
use vstd::prelude::*;

verus! {

/// Where metrics are pushed and how often.
#[derive(Debug)]
pub struct PushPlan {
    pub url: String,
    pub interval_seconds: u64,
}

/// What happens to a pusher.
#[derive(Debug)]
pub enum PushEvent {
    /// It starts.
    Started,
    /// It has slept, and this is what rendering the metrics then gave.
    Woken(Result<String, String>),
    /// It has sent the metrics, and this is what came of it.
    Sent(Result<(), String>),
}

/// What a pusher does.
#[derive(Debug)]
pub enum PushAction {
    /// Sleep for so many seconds.
    Sleep(u64),
    /// Post the body to the address.
    Post { url: String, content_type: &'static str, body: String },
}

/// A [`PushAction`] as a mathematical value.
pub enum PushActionView {
    Sleep(u64),
    Post { url: Seq<char>, content_type: Seq<char>, body: Seq<char> },
}

impl View for PushAction {
    type V = PushActionView;

    open spec fn view(&self) -> PushActionView {
        match *self {
            PushAction::Sleep(seconds) => PushActionView::Sleep(seconds),
            PushAction::Post { url, content_type, body } => PushActionView::Post {
                url: url@,
                content_type: content_type@,
                body: body@,
            },
        }
    }
}

/// What is done after `event`: the metrics are posted where they have just been rendered, and
/// in every other case, also where rendering or sending failed, the next thing is to sleep.
pub open spec fn action_after(plan: &PushPlan, event: PushEvent) -> PushActionView {
    match event {
        PushEvent::Woken(Ok(body)) => PushActionView::Post {
            url: plan.url@,
            content_type: "text/plain; version=0.0.4"@,
            body: body@,
        },
        _ => PushActionView::Sleep(plan.interval_seconds),
    }
}

/// The plan that the settings make, if they say where to push metrics.
pub fn push_plan(config: &Config) -> (r: Option<PushPlan>)
    ensures
        match r {
            Some(plan) => {
                &&& config.vm_push_url matches Some(url)
                &&& plan.url@ == url@
                &&& plan.interval_seconds == config.vm_push_interval_seconds
            },
            None => config.vm_push_url is None,
        },
{
    match &config.vm_push_url {
        Some(url) => Some(
            PushPlan { url: url.clone(), interval_seconds: config.vm_push_interval_seconds },
        ),
        None => None,
    }
}

/// What to do after `event`.
pub fn next_action(plan: &PushPlan, event: PushEvent) -> (action: PushAction)
    ensures
        action@ == action_after(plan, event),
        match action {
            PushAction::Post { url, content_type, body } => {
                &&& event matches PushEvent::Woken(Ok(page)) && body@ == page@
                &&& url@ == plan.url@
                &&& content_type@ == "text/plain; version=0.0.4"@
            },
            PushAction::Sleep(seconds) => {
                &&& !(event matches PushEvent::Woken(Ok(_)))
                &&& seconds == plan.interval_seconds
            },
        },
{
    match event {
        PushEvent::Woken(Ok(body)) => PushAction::Post {
            url: plan.url.clone(),
            content_type: metrics::TEXT_CONTENT_TYPE,
            body,
        },
        _ => PushAction::Sleep(plan.interval_seconds),
    }
}

/// What was rendered is posted as it is to the address of the plan, and after anything else the
/// pusher sleeps for the interval of the plan; so it never posts twice in a row, nor anything that
/// was not just rendered.
pub proof fn pusher_posts_what_was_just_rendered(plan: &PushPlan, event: PushEvent)
    ensures
        match action_after(plan, event) {
            PushActionView::Post { url, content_type, body } => {
                &&& event is Woken
                &&& event->Woken_0 is Ok
                &&& body == event->Woken_0->Ok_0@
                &&& url == plan.url@
                &&& content_type == "text/plain; version=0.0.4"@
            },
            PushActionView::Sleep(seconds) => {
                &&& seconds == plan.interval_seconds
                &&& event is Started || event is Sent || event->Woken_0 is Err
            },
        },
{
}

} // verus!
