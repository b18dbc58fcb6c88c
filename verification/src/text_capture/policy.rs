//! Authorization of text-bearing event fields.
//!
//! Whether an application or a website is excluded is answered outside the
//! library; the rules that combine the answers live here.

use vstd::prelude::*;

use crate::focused_field::FocusedField;
use crate::schema::{App, CaptureContext};
use crate::subject::Subject;
use crate::text;
use crate::text::{as_text, copy_text, is_text, same_str, same_text};
use crate::window_list::same_number;

verus! {

/// The bundle identifier of Google Chrome.
pub const CHROME_BUNDLE_ID: &'static str = "com.google.Chrome";

/// A capture-time decision made before a collector reads optional body text.
#[derive(Debug, PartialEq, Eq)]
pub struct TextContentDecision {
    pub allowed: bool,
    pub capture_context: CaptureContext,
    pub chrome_version: Option<u64>,
}

impl Clone for TextContentDecision {
    fn clone(&self) -> (copy: TextContentDecision)
        ensures
            copy == *self,
    {
        TextContentDecision {
            allowed: self.allowed,
            capture_context: self.capture_context.clone(),
            chrome_version: self.chrome_version,
        }
    }
}

impl TextContentDecision {
    /// The decision that holds when an event is sent, given the one made before
    /// its body was read.
    ///
    /// An earlier denial stands, a body read under one confirmation mode is not
    /// sent under another, and the version to confirm is the earlier one.
    pub open spec fn sent_under(self, earlier: Option<TextContentDecision>) -> TextContentDecision {
        match earlier {
            None => self,
            Some(before) => TextContentDecision {
                allowed: self.allowed && before.allowed && (self.chrome_version is Some
                    <==> before.chrome_version is Some),
                capture_context: self.capture_context,
                chrome_version: before.chrome_version,
            },
        }
    }

    /// Whether optional body text may be read.
    #[must_use]
    pub fn is_allowed(&self) -> (allowed: bool)
        ensures
            allowed == self.allowed,
    {
        self.allowed
    }

    /// The browser surface that the decision was made on.
    #[must_use]
    pub fn capture_context(&self) -> (context: CaptureContext)
        ensures
            context == self.capture_context,
    {
        self.capture_context.clone()
    }

    /// The version of the browser state that has to be confirmed.
    #[must_use]
    pub fn chrome_version(&self) -> (version: Option<u64>)
        ensures
            version == self.chrome_version,
    {
        self.chrome_version
    }

    /// Combines this decision, made at send time, with the earlier one.
    pub fn at_send(self, earlier: Option<&TextContentDecision>) -> (decision: TextContentDecision)
        ensures
            decision == self.sent_under(
                match earlier {
                    Some(before) => Some(*before),
                    None => None,
                },
            ),
    {
        match earlier {
            None => self,
            Some(before) => TextContentDecision {
                allowed: self.allowed && before.allowed && self.chrome_version.is_some()
                    == before.chrome_version.is_some(),
                capture_context: self.capture_context,
                chrome_version: before.chrome_version,
            },
        }
    }
}

/// What the browser tracker knows of one window.
#[derive(Debug, PartialEq, Eq)]
pub struct BrowserState {
    pub capture_context: CaptureContext,
    pub allows_text: bool,
    pub version: Option<u64>,
}

impl Clone for BrowserState {
    fn clone(&self) -> (copy: BrowserState)
        ensures
            copy == *self,
    {
        BrowserState {
            capture_context: self.capture_context.clone(),
            allows_text: self.allows_text,
            version: self.version,
        }
    }
}

/// What the filter answers for one application.
#[derive(Debug, PartialEq, Eq)]
pub struct AppAnswer {
    pub app: App,
    pub allowed: bool,
}

impl Clone for AppAnswer {
    fn clone(&self) -> (copy: AppAnswer)
        ensures
            copy == *self,
    {
        AppAnswer { app: self.app.clone(), allowed: self.allowed }
    }
}

/// What the browser tracker knows of one window of a process.
#[derive(Debug, PartialEq, Eq)]
pub struct WindowState {
    pub pid: i64,
    pub window_id: Option<i64>,
    pub state: BrowserState,
}

impl Clone for WindowState {
    fn clone(&self) -> (copy: WindowState)
        ensures
            copy == *self,
    {
        WindowState { pid: self.pid, window_id: self.window_id, state: self.state.clone() }
    }
}

/// The answers that the current filter and browser tracker give: one for every
/// application and window that was asked about, and one for all others.
///
/// A filter that cannot be read counts as a denial.
#[derive(Debug, PartialEq, Eq)]
pub struct TextContentPolicy {
    pub app_allowed: Option<bool>,
    pub browser: BrowserState,
    pub apps: Vec<AppAnswer>,
    pub windows: Vec<WindowState>,
}

impl Clone for TextContentPolicy {
    fn clone(&self) -> (copy: TextContentPolicy)
        ensures
            copy.app_allowed == self.app_allowed,
            copy.browser == self.browser,
            copy.apps@ == self.apps@,
            copy.windows@ == self.windows@,
    {
        TextContentPolicy {
            app_allowed: self.app_allowed,
            browser: self.browser.clone(),
            apps: self.apps.clone(),
            windows: self.windows.clone(),
        }
    }
}

/// Whether the application is Google Chrome.
pub open spec fn is_chrome(app: App) -> bool {
    text::text_view(app.bundle_id) == Some(CHROME_BUNDLE_ID@)
}

/// Whether two applications are the same.
pub open spec fn is_app(left: App, right: App) -> bool {
    &&& left.name@ == right.name@
    &&& text::text_view(left.bundle_id) == text::text_view(right.bundle_id)
    &&& left.pid == right.pid
}

/// The latest answer for an application.
pub open spec fn answer_for(apps: Seq<AppAnswer>, app: App) -> Option<bool>
    decreases apps.len(),
{
    if apps.len() == 0 {
        None
    } else if is_app(apps.last().app, app) {
        Some(apps.last().allowed)
    } else {
        answer_for(apps.drop_last(), app)
    }
}

/// The latest state of a window.
pub open spec fn state_for(
    windows: Seq<WindowState>,
    pid: i64,
    window_id: Option<i64>,
) -> Option<BrowserState>
    decreases windows.len(),
{
    if windows.len() == 0 {
        None
    } else if windows.last().pid == pid && windows.last().window_id == window_id {
        Some(windows.last().state)
    } else {
        state_for(windows.drop_last(), pid, window_id)
    }
}

/// Whether two applications are the same.
fn same_app(left: &App, right: &App) -> (same: bool)
    ensures
        same == is_app(*left, *right),
{
    same_str(left.name.as_str(), right.name.as_str()) && same_text(
        &left.bundle_id,
        &right.bundle_id,
    ) && same_number(left.pid, right.pid)
}

impl TextContentPolicy {
    /// Whether the filter allows text of an application.
    pub open spec fn allows_app(self, app: App) -> bool {
        match self.app_allowed {
            None => false,
            Some(otherwise) => match answer_for(self.apps@, app) {
                Some(allowed) => allowed,
                None => otherwise,
            },
        }
    }

    /// What is known of a browser window.
    pub open spec fn window_state(self, pid: i64, window_id: Option<i64>) -> BrowserState {
        match state_for(self.windows@, pid, window_id) {
            Some(state) => state,
            None => self.browser,
        }
    }

    /// Chrome needs an allowed page besides an allowed application; without a
    /// process or a window nothing is known of the page.
    pub open spec fn spec_decision(self, app: App, window_id: Option<i64>) -> TextContentDecision {
        if !is_chrome(app) {
            TextContentDecision {
                allowed: self.allows_app(app),
                capture_context: CaptureContext::empty(),
                chrome_version: None,
            }
        } else if app.pid is None {
            TextContentDecision {
                allowed: false,
                capture_context: CaptureContext::empty(),
                chrome_version: None,
            }
        } else {
            let state = self.window_state(app.pid->0, window_id);
            TextContentDecision {
                allowed: self.allows_app(app) && state.allows_text,
                capture_context: state.capture_context,
                chrome_version: if window_id is Some {
                    state.version
                } else {
                    None
                },
            }
        }
    }

    pub open spec fn spec_input_decision(
        self,
        app: App,
        window_id: Option<i64>,
        focused_field: Option<FocusedField>,
    ) -> TextContentDecision {
        let decision = self.spec_decision(app, window_id);
        TextContentDecision {
            allowed: decision.allowed && (focused_field matches Some(field)
                && field.class.known_text()),
            ..decision
        }
    }

    /// The policy that gives these answers to everything.
    pub fn new(app_allowed: Option<bool>, browser: BrowserState) -> (policy: TextContentPolicy)
        ensures
            policy.app_allowed == app_allowed,
            policy.browser == browser,
            policy.apps@.len() == 0,
            policy.windows@.len() == 0,
    {
        TextContentPolicy { app_allowed, browser, apps: Vec::new(), windows: Vec::new() }
    }

    /// Takes over what a replaced filter answers; the browser state stays.
    pub fn replace_filter(&mut self, app_allowed: Option<bool>)
        ensures
            final(self).app_allowed == app_allowed,
            final(self).apps@.len() == 0,
            final(self).browser == old(self).browser,
            final(self).windows == old(self).windows,
    {
        self.app_allowed = app_allowed;
        self.apps = Vec::new();
    }

    /// Takes over what the filter answers for one application.
    pub fn answer_app(&mut self, app: App, allowed: bool)
        ensures
            final(self).apps@ == old(self).apps@.push(AppAnswer { app, allowed }),
            final(self).app_allowed == old(self).app_allowed,
            final(self).browser == old(self).browser,
            final(self).windows == old(self).windows,
    {
        self.apps.push(AppAnswer { app, allowed });
    }

    /// Takes over what the browser tracker knows of one window.
    pub fn answer_window(&mut self, pid: i64, window_id: Option<i64>, state: BrowserState)
        ensures
            final(self).windows@ == old(self).windows@.push(WindowState { pid, window_id, state }),
            final(self).app_allowed == old(self).app_allowed,
            final(self).browser == old(self).browser,
            final(self).apps == old(self).apps,
    {
        self.windows.push(WindowState { pid, window_id, state });
    }

    /// Whether the filter allows text of an application.
    fn allows(&self, app: &App) -> (allowed: bool)
        ensures
            allowed == self.allows_app(*app),
    {
        let otherwise = match self.app_allowed {
            None => {
                return false;
            },
            Some(otherwise) => otherwise,
        };
        let mut left: usize = self.apps.len();
        assert(self.apps@.take(left as int) =~= self.apps@);
        while left > 0
            invariant
                left <= self.apps@.len(),
                answer_for(self.apps@, *app) == answer_for(self.apps@.take(left as int), *app),
                self.app_allowed == Some(otherwise),
            decreases left,
        {
            left = left - 1;
            let ghost listed = self.apps@.take(left + 1);
            assert(listed.drop_last() =~= self.apps@.take(left as int));
            assert(listed.last() == self.apps@[left as int]);
            if same_app(&self.apps[left].app, app) {
                return self.apps[left].allowed;
            }
        }
        otherwise
    }

    /// What is known of a browser window.
    fn window(&self, pid: i64, window_id: Option<i64>) -> (state: BrowserState)
        ensures
            state == self.window_state(pid, window_id),
    {
        let mut left: usize = self.windows.len();
        assert(self.windows@.take(left as int) =~= self.windows@);
        while left > 0
            invariant
                left <= self.windows@.len(),
                state_for(self.windows@, pid, window_id) == state_for(
                    self.windows@.take(left as int),
                    pid,
                    window_id,
                ),
            decreases left,
        {
            left = left - 1;
            let ghost listed = self.windows@.take(left + 1);
            assert(listed.drop_last() =~= self.windows@.take(left as int));
            assert(listed.last() == self.windows@[left as int]);
            let known = &self.windows[left];
            if known.pid == pid && same_number(known.window_id, window_id) {
                return known.state.clone();
            }
        }
        self.browser.clone()
    }

    /// Decides about body text of an application's window.
    pub fn decision(&self, app: &App, window_id: Option<i64>) -> (decision: TextContentDecision)
        ensures
            decision == self.spec_decision(*app, window_id),
    {
        let app_allowed = self.allows(app);
        if !is_text(as_text(&app.bundle_id), CHROME_BUNDLE_ID) {
            return TextContentDecision {
                allowed: app_allowed,
                capture_context: CaptureContext::default(),
                chrome_version: None,
            };
        }
        match app.pid {
            None => TextContentDecision {
                allowed: false,
                capture_context: CaptureContext::default(),
                chrome_version: None,
            },
            Some(pid) => {
                let state = self.window(pid, window_id);
                TextContentDecision {
                    allowed: app_allowed && state.allows_text,
                    capture_context: state.capture_context,
                    chrome_version: if window_id.is_some() {
                        state.version
                    } else {
                        None
                    },
                }
            },
        }
    }

    /// Decides about text typed into the focused field.
    pub fn input_decision(
        &self,
        app: &App,
        window_id: Option<i64>,
        focused_field: Option<FocusedField>,
    ) -> (decision: TextContentDecision)
        ensures
            decision == self.spec_input_decision(*app, window_id, focused_field),
    {
        let decision = self.decision(app, window_id);
        let known_text = match focused_field {
            Some(field) => field.class.is_known_text(),
            None => false,
        };
        TextContentDecision { allowed: decision.allowed && known_text, ..decision }
    }
}

/// What the policy answers for one surface of an application.
#[derive(Debug, PartialEq, Eq)]
pub struct SurfaceAnswer {
    pub app: App,
    pub window_id: Option<i64>,
    pub title: Option<String>,
    pub decision: TextContentDecision,
}

impl Clone for SurfaceAnswer {
    fn clone(&self) -> (copy: SurfaceAnswer)
        ensures
            copy == *self,
    {
        SurfaceAnswer {
            app: self.app.clone(),
            window_id: self.window_id,
            title: copy_text(&self.title),
            decision: self.decision.clone(),
        }
    }
}

impl SurfaceAnswer {
    /// Whether the answer is about this surface.
    pub open spec fn concerns(self, app: App, window_id: Option<i64>, title: Option<Seq<char>>)
        -> bool {
        &&& is_app(self.app, app)
        &&& self.window_id == window_id
        &&& text::text_view(self.title) == title
    }

    /// Whether the answer is about this surface.
    fn is_about(&self, app: &App, window_id: Option<i64>, title: Option<&str>) -> (about: bool)
        ensures
            about == self.concerns(*app, window_id, text::str_view(title)),
    {
        let same_title = match (&self.title, title) {
            (Some(known), Some(title)) => same_str(known.as_str(), title),
            (None, None) => true,
            _ => false,
        };
        same_title && same_number(self.window_id, window_id) && same_app(&self.app, app)
    }
}

/// The latest answer for a surface.
pub open spec fn surface_for(
    surfaces: Seq<SurfaceAnswer>,
    app: App,
    window_id: Option<i64>,
    title: Option<Seq<char>>,
) -> Option<TextContentDecision>
    decreases surfaces.len(),
{
    if surfaces.len() == 0 {
        None
    } else if surfaces.last().concerns(app, window_id, title) {
        Some(surfaces.last().decision)
    } else {
        surface_for(surfaces.drop_last(), app, window_id, title)
    }
}

/// The answers that hold for captured text: one for every surface that was asked
/// about, by its application, window and title. Any other surface is judged by the
/// filter and the browser tracker alone.
///
/// A surface of any application may be answered with a version to confirm.
#[derive(Debug, PartialEq, Eq)]
pub struct CapturePolicy {
    pub content: TextContentPolicy,
    pub surfaces: Vec<SurfaceAnswer>,
}

impl Clone for CapturePolicy {
    fn clone(&self) -> (copy: CapturePolicy)
        ensures
            copy.content.app_allowed == self.content.app_allowed,
            copy.content.browser == self.content.browser,
            copy.content.apps@ == self.content.apps@,
            copy.content.windows@ == self.content.windows@,
            copy.surfaces@ == self.surfaces@,
    {
        CapturePolicy { content: self.content.clone(), surfaces: self.surfaces.clone() }
    }
}

impl CapturePolicy {
    /// What the policy says of body text on a surface.
    pub open spec fn spec_decision(
        self,
        app: App,
        window_id: Option<i64>,
        title: Option<Seq<char>>,
    ) -> TextContentDecision {
        match surface_for(self.surfaces@, app, window_id, title) {
            Some(decision) => decision,
            None => self.content.spec_decision(app, window_id),
        }
    }

    /// What the policy says of text typed into a focused field of a window.
    pub open spec fn spec_input_decision(
        self,
        app: App,
        window_id: Option<i64>,
        focused_field: Option<FocusedField>,
    ) -> TextContentDecision {
        let decision = self.spec_decision(app, window_id, None);
        TextContentDecision {
            allowed: decision.allowed && (focused_field matches Some(field)
                && field.class.known_text()),
            ..decision
        }
    }

    /// The policy that goes by the filter and the browser tracker alone.
    pub fn new(content: TextContentPolicy) -> (policy: CapturePolicy)
        ensures
            policy.content == content,
            policy.surfaces@.len() == 0,
    {
        CapturePolicy { content, surfaces: Vec::new() }
    }

    /// Takes over what a replaced filter answers. What was answered for a surface
    /// under the earlier one no longer holds.
    pub fn replace_filter(&mut self, app_allowed: Option<bool>)
        ensures
            final(self).content.app_allowed == app_allowed,
            final(self).content.apps@.len() == 0,
            final(self).content.browser == old(self).content.browser,
            final(self).content.windows == old(self).content.windows,
            final(self).surfaces@.len() == 0,
    {
        self.content.replace_filter(app_allowed);
        self.surfaces = Vec::new();
    }

    /// Takes over what the policy answers for one surface.
    pub fn answer_surface(
        &mut self,
        app: App,
        window_id: Option<i64>,
        title: Option<String>,
        decision: TextContentDecision,
    )
        ensures
            final(self).surfaces@ == old(self).surfaces@.push(
                SurfaceAnswer { app, window_id, title, decision },
            ),
            final(self).content == old(self).content,
    {
        self.surfaces.push(SurfaceAnswer { app, window_id, title, decision });
    }

    /// Decides about body text on a surface of an application. Where no title is
    /// handed on, none is known.
    pub fn decision(&self, app: &App, window_id: Option<i64>, title: Option<&str>) -> (decision:
        TextContentDecision)
        ensures
            decision == self.spec_decision(*app, window_id, text::str_view(title)),
    {
        let ghost named = text::str_view(title);
        let mut left: usize = self.surfaces.len();
        assert(self.surfaces@.take(left as int) =~= self.surfaces@);
        while left > 0
            invariant
                named == text::str_view(title),
                left <= self.surfaces@.len(),
                surface_for(self.surfaces@, *app, window_id, named) == surface_for(
                    self.surfaces@.take(left as int),
                    *app,
                    window_id,
                    named,
                ),
            decreases left,
        {
            left = left - 1;
            let ghost listed = self.surfaces@.take(left + 1);
            assert(listed.drop_last() =~= self.surfaces@.take(left as int));
            assert(listed.last() == self.surfaces@[left as int]);
            if self.surfaces[left].is_about(app, window_id, title) {
                return self.surfaces[left].decision.clone();
            }
        }
        self.content.decision(app, window_id)
    }

    /// Decides about text typed into the focused field of a window.
    pub fn input_decision(
        &self,
        app: &App,
        window_id: Option<i64>,
        focused_field: Option<FocusedField>,
    ) -> (decision: TextContentDecision)
        ensures
            decision == self.spec_input_decision(*app, window_id, focused_field),
    {
        let decision = self.decision(app, window_id, None);
        let known_text = match focused_field {
            Some(field) => field.class.is_known_text(),
            None => false,
        };
        TextContentDecision { allowed: decision.allowed && known_text, ..decision }
    }
}

/// An answer for one surface decides nothing about another, and everything about
/// its own: the same window under another title is another surface.
pub proof fn law_surface_answers_keep_to_their_surface(
    before: CapturePolicy,
    answer: SurfaceAnswer,
    after: CapturePolicy,
    app: App,
    window_id: Option<i64>,
    title: Option<Seq<char>>,
)
    requires
        after.content == before.content,
        after.surfaces@ == before.surfaces@.push(answer),
    ensures
        after.spec_decision(app, window_id, title) == if answer.concerns(app, window_id, title) {
            answer.decision
        } else {
            before.spec_decision(app, window_id, title)
        },
{
    assert(after.surfaces@.drop_last() =~= before.surfaces@);
}

/// A denial before the body was read is never lifted at send time, and neither
/// is a denial at send time.
pub proof fn law_denial_is_not_lifted(
    current: TextContentDecision,
    earlier: Option<TextContentDecision>,
)
    ensures
        !current.allowed ==> !current.sent_under(earlier).allowed,
        earlier matches Some(before) && !before.allowed ==> !current.sent_under(earlier).allowed,
        earlier matches Some(before) ==> current.sent_under(earlier).chrome_version
            == before.chrome_version,
{
}

/// Typing outside a known text field is never allowed, whatever the filter says.
pub proof fn law_input_needs_a_known_text_field(
    policy: TextContentPolicy,
    app: App,
    window_id: Option<i64>,
    focused_field: Option<FocusedField>,
)
    ensures
        policy.spec_input_decision(app, window_id, focused_field).allowed ==> policy.spec_decision(
            app,
            window_id,
        ).allowed && (focused_field matches Some(field) && field.class.known_text()),
        !policy.allows_app(app) ==> !policy.spec_decision(app, window_id).allowed,
{
}

/// An answer for one application or window decides nothing about another.
pub proof fn law_answers_keep_to_their_subject(
    before: TextContentPolicy,
    answer: AppAnswer,
    known: WindowState,
    after: TextContentPolicy,
    app: App,
    window_id: Option<i64>,
)
    requires
        after.app_allowed == before.app_allowed,
        after.browser == before.browser,
        after.apps@ == before.apps@.push(answer),
        after.windows@ == before.windows@.push(known),
    ensures
        !is_app(answer.app, app) && (app.pid != Some(known.pid) || known.window_id != window_id)
            ==> after.spec_decision(app, window_id) == before.spec_decision(app, window_id),
        is_app(answer.app, app) && before.app_allowed is Some ==> after.allows_app(app)
            == answer.allowed,
{
    assert(after.apps@.drop_last() =~= before.apps@);
    assert(after.windows@.drop_last() =~= before.windows@);
}

/// Outside Chrome the filter alone decides, and no page is named or confirmed. Chrome needs an
/// allowed page as well: it names the page, and its version where the window is known; without
/// a process it is denied. An unreadable filter denies everything.
pub proof fn law_filter_and_page_both_decide(
    policy: TextContentPolicy,
    app: App,
    window_id: Option<i64>,
    decision: TextContentDecision,
)
    requires
        call_ensures(TextContentPolicy::decision, (&policy, &app, window_id), decision),
        policy.apps@.len() == 0 && policy.windows@.len() == 0,
    ensures
        policy.app_allowed != Some(true) ==> !decision.allowed,
        !(app.bundle_id matches Some(id) && id@ == "com.google.Chrome"@) ==> {
            &&& decision.allowed <==> policy.app_allowed == Some(true)
            &&& decision.chrome_version is None
            &&& decision.capture_context.url is None
            &&& decision.capture_context.website_host is None
        },
        (app.bundle_id matches Some(id) && id@ == "com.google.Chrome"@) ==> {
            &&& decision.allowed <==> policy.app_allowed == Some(true) && policy.browser.allows_text
                && app.pid is Some
            &&& app.pid is Some ==> decision.capture_context == policy.browser.capture_context
            &&& decision.chrome_version is Some ==> window_id is Some && app.pid is Some
                && decision.chrome_version == policy.browser.version
            &&& window_id is Some && app.pid is Some ==> decision.chrome_version
                == policy.browser.version
        },
{
}

/// What was answered last for an application or a window holds; answers for others do not
/// matter.
pub proof fn law_latest_answers_hold(
    policy: TextContentPolicy,
    app: App,
    window_id: Option<i64>,
    decision: TextContentDecision,
)
    requires
        call_ensures(TextContentPolicy::decision, (&policy, &app, window_id), decision),
        policy.app_allowed is Some && policy.apps@.len() > 0 && policy.windows@.len() > 0,
        policy.apps@.last().app == app,
        app.pid is Some && policy.windows@.last().pid == app.pid->0,
        policy.windows@.last().window_id == window_id,
    ensures
        !policy.apps@.last().allowed ==> !decision.allowed,
        (app.bundle_id matches Some(id) && id@ == "com.google.Chrome"@) ==> {
            &&& decision.allowed <==> policy.apps@.last().allowed
                && policy.windows@.last().state.allows_text
            &&& decision.capture_context == policy.windows@.last().state.capture_context
            &&& window_id is Some ==> decision.chrome_version
                == policy.windows@.last().state.version
        },
        !(app.bundle_id matches Some(id) && id@ == "com.google.Chrome"@) ==> decision.allowed
            == policy.apps@.last().allowed,
{
}

/// Typing is allowed exactly where text is allowed without regard to a title and the focus is on
/// a known text field; the page and its version are named all the same.
pub proof fn law_typing_needs_an_allowed_text_field(
    policy: CapturePolicy,
    app: App,
    window_id: Option<i64>,
    focused_field: Option<FocusedField>,
    typed: TextContentDecision,
    decision: TextContentDecision,
)
    requires
        call_ensures(CapturePolicy::input_decision, (&policy, &app, window_id, focused_field), typed),
        call_ensures(CapturePolicy::decision, (&policy, &app, window_id, None), decision),
    ensures
        typed.allowed <==> decision.allowed && (focused_field matches Some(field) && field.class
            is KnownText),
        typed.capture_context == decision.capture_context,
        typed.chrome_version == decision.chrome_version,
{
}

/// A surface that was answered for last has that answer; with no answers the filter and the page
/// decide.
pub proof fn law_surfaces_have_their_answers(
    policy: CapturePolicy,
    app: App,
    window_id: Option<i64>,
    title: Option<&str>,
    decision: TextContentDecision,
    otherwise: TextContentDecision,
)
    requires
        call_ensures(CapturePolicy::decision, (&policy, &app, window_id, title), decision),
        call_ensures(TextContentPolicy::decision, (&policy.content, &app, window_id), otherwise),
    ensures
        policy.surfaces@.len() == 0 ==> decision == otherwise,
        policy.surfaces@.len() > 0 && policy.surfaces@.last().app == app
            && policy.surfaces@.last().window_id == window_id && text::text_view(
            policy.surfaces@.last().title,
        ) == text::str_view(title) ==> decision == policy.surfaces@.last().decision,
        policy.surfaces@.len() == 1 && (policy.surfaces@[0].app.pid != app.pid
            || policy.surfaces@[0].window_id != window_id || text::text_view(
            policy.surfaces@[0].title,
        ) != text::str_view(title)) ==> decision == otherwise,
{
    reveal_with_fuel(surface_for, 3);
}

/// Sending is decided by both decisions: each must allow it, and both must confirm in the same
/// way. The version to confirm is the earlier one, the page that is named is the current one.
pub proof fn law_sending_needs_both_decisions(
    current: TextContentDecision,
    earlier: Option<&TextContentDecision>,
    sent: TextContentDecision,
)
    requires
        call_ensures(TextContentDecision::at_send, (current, earlier), sent),
    ensures
        earlier is None ==> sent == current,
        earlier matches Some(before) ==> {
            &&& sent.allowed <==> current.allowed && before.allowed
                && current.chrome_version.is_some() == before.chrome_version.is_some()
            &&& sent.chrome_version == before.chrome_version
        },
        sent.capture_context == current.capture_context,
{
}

/// A replaced filter takes the place of every answer of the earlier one; what is known of pages
/// stays. A new answer comes last and leaves the others.
pub proof fn law_answers_are_taken_over(
    replaced: Subject<CapturePolicy>,
    app_allowed: Option<bool>,
    answered: Subject<CapturePolicy>,
    answer: SurfaceAnswer,
    asked: Subject<TextContentPolicy>,
    app: App,
    allowed: bool,
    seen: Subject<TextContentPolicy>,
    pid: i64,
    window_id: Option<i64>,
    state: BrowserState,
)
    requires
        call_ensures(CapturePolicy::replace_filter, (replaced.on, app_allowed), ()),
        call_ensures(
            CapturePolicy::answer_surface,
            (answered.on, answer.app, answer.window_id, answer.title, answer.decision),
            (),
        ),
        call_ensures(TextContentPolicy::answer_app, (asked.on, app, allowed), ()),
        call_ensures(TextContentPolicy::answer_window, (seen.on, pid, window_id, state), ()),
    ensures
        final(replaced.on).content.app_allowed == app_allowed,
        final(replaced.on).content.apps@.len() == 0 && final(replaced.on).surfaces@.len() == 0,
        final(replaced.on).content.browser == old(replaced.on).content.browser,
        final(replaced.on).content.windows == old(replaced.on).content.windows,
        final(answered.on).surfaces@ == old(answered.on).surfaces@.push(answer),
        final(answered.on).content == old(answered.on).content,
        final(asked.on).apps@ == old(asked.on).apps@.push(AppAnswer { app, allowed }),
        final(asked.on).windows == old(asked.on).windows,
        final(seen.on).windows@ == old(seen.on).windows@.push(WindowState { pid, window_id, state }),
        final(seen.on).apps == old(seen.on).apps,
{
}

} // verus!
