//! Page manager: registry of pages, navigation between them and event routing.
use vstd::prelude::*;
use crate::models::{App, AppState};
use crate::text::str_eq;
use super::lifecycle::PageLifecycle;
use super::page_trait::{EventResult, PageEvent, PageResult};
use super::pages::{destroyed_from, initialized_from, instance_details_response, instance_list_after, instance_list_response, metrics_summary_response, service_list_after, service_list_response, updated_from, InstanceDetailsPage, InstanceListPage, MetricsSummaryPage, ServiceListPage};

verus! {

broadcast use vstd::string::group_string_axioms;

/// One of the pages the manager can hold.
#[derive(Debug)]
pub enum AnyPage {
    ServiceList(ServiceListPage),
    InstanceList(InstanceListPage),
    MetricsSummary(MetricsSummaryPage),
    InstanceDetails(InstanceDetailsPage),
}

/// The application state that matches a page name; unknown names keep `current`.
pub open spec fn state_for_page(name: Seq<char>, current: AppState) -> AppState {
    if name == "service_list"@ {
        AppState::ServiceList
    } else if name == "instance_list"@ {
        AppState::InstanceList
    } else if name == "metrics_summary"@ {
        AppState::MetricsSummary
    } else if name == "instance_details"@ {
        AppState::InstanceDetails
    } else {
        current
    }
}

/// The page name that matches an application state.
pub open spec fn page_for_state(state: AppState) -> Seq<char> {
    match state {
        AppState::ServiceList => "service_list"@,
        AppState::InstanceList => "instance_list"@,
        AppState::MetricsSummary => "metrics_summary"@,
        AppState::InstanceDetails => "instance_details"@,
    }
}

/// The page that "back" leads to from a page, if any.
pub open spec fn previous_page(name: Seq<char>) -> Option<Seq<char>> {
    if name == "instance_list"@ {
        Some("service_list"@)
    } else if name == "metrics_summary"@ {
        Some("instance_list"@)
    } else if name == "instance_details"@ {
        Some("metrics_summary"@)
    } else {
        None
    }
}

impl AnyPage {
    /// The lifecycle of the page.
    pub open spec fn lifecycle_spec(&self) -> PageLifecycle {
        match self {
            AnyPage::ServiceList(p) => p.lifecycle_spec(),
            AnyPage::InstanceList(p) => p.lifecycle_spec(),
            AnyPage::MetricsSummary(p) => p.lifecycle_spec(),
            AnyPage::InstanceDetails(p) => p.lifecycle_spec(),
        }
    }

    /// `new` is `old` with its lifecycle replaced by one that satisfies `rel`-style
    /// constraints: same kind of page.
    pub open spec fn same_kind(&self, other: AnyPage) -> bool {
        match (*self, other) {
            (AnyPage::ServiceList(_), AnyPage::ServiceList(_)) => true,
            (AnyPage::InstanceList(_), AnyPage::InstanceList(_)) => true,
            (AnyPage::MetricsSummary(_), AnyPage::MetricsSummary(_)) => true,
            (AnyPage::InstanceDetails(_), AnyPage::InstanceDetails(_)) => true,
            _ => false,
        }
    }

    /// The application state after the page handles an event.
    pub open spec fn app_after(&self, app: App, event: PageEvent) -> App {
        match self {
            AnyPage::ServiceList(_) => service_list_after(app, event),
            AnyPage::InstanceList(_) => instance_list_after(app, event),
            _ => app,
        }
    }

    /// What the page answers to an event.
    pub open spec fn response(&self, app: App, event: PageEvent, res: EventResult) -> bool {
        match self {
            AnyPage::ServiceList(_) => service_list_response(app, event, res),
            AnyPage::InstanceList(_) => instance_list_response(app, event, res),
            AnyPage::MetricsSummary(_) => metrics_summary_response(event, res),
            AnyPage::InstanceDetails(_) => instance_details_response(event, res),
        }
    }

    /// The title of the page.
    pub open spec fn title_spec(&self) -> Seq<char> {
        match self {
            AnyPage::ServiceList(_) => "Service Selection"@,
            AnyPage::InstanceList(_) => "Instance List"@,
            AnyPage::MetricsSummary(_) => "Metrics Summary"@,
            AnyPage::InstanceDetails(_) => "Instance Details"@,
        }
    }

    /// Whether back navigation is offered from the page.
    pub open spec fn can_navigate_back_spec(&self) -> bool {
        !(self is ServiceList)
    }

    pub fn initialize(&mut self, app: &mut App) -> (res: PageResult)
        ensures
            res == PageResult::Success,
            final(self).same_kind(*old(self)),
            initialized_from(old(self).lifecycle_spec(), final(self).lifecycle_spec()),
            *final(app) == *old(app),
    {
        match self {
            AnyPage::ServiceList(p) => p.initialize(app),
            AnyPage::InstanceList(p) => p.initialize(app),
            AnyPage::MetricsSummary(p) => p.initialize(app),
            AnyPage::InstanceDetails(p) => p.initialize(app),
        }
    }

    pub fn update(&mut self, app: &mut App) -> (res: PageResult)
        requires
            old(self).lifecycle_spec().update_count_spec() < u32::MAX,
        ensures
            res == PageResult::Success,
            final(self).same_kind(*old(self)),
            updated_from(old(self).lifecycle_spec(), final(self).lifecycle_spec()),
            *final(app) == *old(app),
    {
        match self {
            AnyPage::ServiceList(p) => p.update(app),
            AnyPage::InstanceList(p) => p.update(app),
            AnyPage::MetricsSummary(p) => p.update(app),
            AnyPage::InstanceDetails(p) => p.update(app),
        }
    }

    pub fn cleanup(&mut self, app: &mut App) -> (res: PageResult)
        ensures
            res == PageResult::Success,
            final(self).same_kind(*old(self)),
            destroyed_from(old(self).lifecycle_spec(), final(self).lifecycle_spec()),
            *final(app) == *old(app),
    {
        match self {
            AnyPage::ServiceList(p) => p.cleanup(app),
            AnyPage::InstanceList(p) => p.cleanup(app),
            AnyPage::MetricsSummary(p) => p.cleanup(app),
            AnyPage::InstanceDetails(p) => p.cleanup(app),
        }
    }

    pub fn handle_event(&mut self, event: PageEvent, app: &mut App) -> (res: EventResult)
        ensures
            *final(self) == *old(self),
            *final(app) == old(self).app_after(*old(app), event),
            old(self).response(*old(app), event, res),
    {
        match self {
            AnyPage::ServiceList(p) => p.handle_event(event, app),
            AnyPage::InstanceList(p) => p.handle_event(event, app),
            AnyPage::MetricsSummary(p) => p.handle_event(event, app),
            AnyPage::InstanceDetails(p) => p.handle_event(event, app),
        }
    }

    pub fn title(&self) -> (res: String)
        ensures
            res@ == self.title_spec(),
    {
        match self {
            AnyPage::ServiceList(p) => p.title(),
            AnyPage::InstanceList(p) => p.title(),
            AnyPage::MetricsSummary(p) => p.title(),
            AnyPage::InstanceDetails(p) => p.title(),
        }
    }

    pub fn can_navigate_back(&self) -> (res: bool)
        ensures
            res == self.can_navigate_back_spec(),
    {
        match self {
            AnyPage::ServiceList(p) => p.can_navigate_back(),
            AnyPage::InstanceList(p) => p.can_navigate_back(),
            AnyPage::MetricsSummary(p) => p.can_navigate_back(),
            AnyPage::InstanceDetails(p) => p.can_navigate_back(),
        }
    }
}


/// Page manager that coordinates all pages. Page names are unique in the registry.
#[derive(Debug)]
pub struct PageManager {
    current_page: String,
    pages: Vec<(String, AnyPage)>,
    enabled: bool,
}

/// The message of a failed navigation to an unknown page.
pub open spec fn not_found_message(name: Seq<char>) -> Seq<char> {
    "Page '"@ + name + "' not found"@
}

/// The message of an update while the current page is not registered.
pub open spec fn current_not_found_message(name: Seq<char>) -> Seq<char> {
    "Current page '"@ + name + "' not found"@
}

/// The application state after moving to the page `name`.
pub open spec fn app_on_page(app: App, name: Seq<char>) -> App {
    App { state: state_for_page(name, app.state), ..app }
}

impl PageManager {
    /// The name of the current page.
    pub closed spec fn current_spec(&self) -> Seq<char> {
        self.current_page@
    }

    /// The names of the registered pages, in registration order.
    pub closed spec fn names(&self) -> Seq<Seq<char>> {
        self.pages@.map_values(|e: (String, AnyPage)| e.0@)
    }

    /// The page registered at position `i`.
    pub closed spec fn page_at(&self, i: int) -> AnyPage {
        self.pages@[i].1
    }

    /// Whether the page system is enabled.
    pub closed spec fn enabled_spec(&self) -> bool {
        self.enabled
    }

    /// Registered names are unique.
    pub open spec fn wf(&self) -> bool {
        forall|i: int, j: int|
            0 <= i < self.names().len() && 0 <= j < self.names().len() && i != j
                ==> #[trigger] self.names()[i] != #[trigger] self.names()[j]
    }

    /// Whether a page of that name is registered.
    pub open spec fn has_page(&self, name: Seq<char>) -> bool {
        self.names().contains(name)
    }

    /// The position of the page registered under `name`.
    pub open spec fn index_of(&self, name: Seq<char>) -> int {
        choose|i: int| 0 <= i < self.names().len() && self.names()[i] == name
    }

    /// The page registered under `name`.
    pub open spec fn page_named(&self, name: Seq<char>) -> AnyPage {
        self.page_at(self.index_of(name))
    }

    /// The pages of `new` are those of `old`, page for page.
    pub open spec fn same_pages(old: PageManager, new: PageManager) -> bool {
        &&& new.names() == old.names()
        &&& forall|i: int| 0 <= i < old.names().len() ==> new.page_at(i) == old.page_at(i)
    }

    /// `new` and `app_new` are what a successful navigation to the registered page
    /// `name` makes of `old` and `app_old`: the page that was current is cleaned up,
    /// the target is initialized, the application state follows the page.
    pub open spec fn navigated(old: PageManager, new: PageManager, name: Seq<char>, app_old: App, app_new: App) -> bool {
        let t = old.index_of(name);
        &&& new.wf()
        &&& new.current_spec() == name
        &&& new.enabled_spec() == old.enabled_spec()
        &&& new.names() == old.names()
        &&& app_new == app_on_page(app_old, name)
        &&& forall|i: int| 0 <= i < old.names().len() ==> #[trigger] new.page_at(i).same_kind(old.page_at(i))
        &&& initialized_from(old.page_at(t).lifecycle_spec(), new.page_at(t).lifecycle_spec())
        &&& forall|i: int|
            0 <= i < old.names().len() && i != t ==> if old.has_page(old.current_spec()) && i == old.index_of(
                old.current_spec(),
            ) {
                destroyed_from(old.page_at(i).lifecycle_spec(), new.page_at(i).lifecycle_spec())
            } else {
                #[trigger] new.page_at(i) == old.page_at(i)
            }
    }

    /// What an attempt to move to the page `name` makes of `old` and `app_old`: a
    /// registered page is navigated to; an unknown name changes nothing.
    pub open spec fn moved(old: PageManager, new: PageManager, name: Seq<char>, app_old: App, app_new: App) -> bool {
        if old.has_page(name) {
            Self::navigated(old, new, name, app_old, app_new)
        } else {
            Self::unchanged(old, new) && app_new == app_old
        }
    }

    /// What `navigate_to(name)` answers.
    pub open spec fn navigate_result(old: PageManager, name: Seq<char>, res: PageResult) -> bool {
        if old.has_page(name) {
            res == PageResult::Success
        } else {
            res is Error && res->Error_0@ == not_found_message(name)
        }
    }

    /// `new` differs from `old` at most in the page at position `i`, which keeps its kind.
    pub open spec fn changed_only_at(old: PageManager, new: PageManager, i: int) -> bool {
        &&& new.names() == old.names()
        &&& new.current_spec() == old.current_spec()
        &&& new.enabled_spec() == old.enabled_spec()
        &&& new.page_at(i).same_kind(old.page_at(i))
        &&& forall|j: int| 0 <= j < old.names().len() && j != i ==> #[trigger] new.page_at(j) == old.page_at(j)
    }

    /// `new` holds the same registry, current page and switch as `old`.
    pub open spec fn unchanged(old: PageManager, new: PageManager) -> bool {
        &&& new.names() == old.names()
        &&& new.current_spec() == old.current_spec()
        &&& new.enabled_spec() == old.enabled_spec()
        &&& forall|j: int| 0 <= j < old.names().len() ==> #[trigger] new.page_at(j) == old.page_at(j)
    }

    /// The registry as a map from page name to page.
    pub open spec fn page_map(&self) -> Map<Seq<char>, AnyPage> {
        Map::new(|n: Seq<char>| self.has_page(n), |n: Seq<char>| self.page_named(n))
    }

    /// In a registry with unique names, the position of a name is the one it occupies.
    proof fn lemma_index_of_unique(&self, i: int)
        requires
            self.wf(),
            0 <= i < self.names().len(),
        ensures
            self.has_page(self.names()[i]),
            self.index_of(self.names()[i]) == i,
    {
        let n = self.names()[i];
        assert(self.names()[i] == n);
        let j = self.index_of(n);
        assert(0 <= j < self.names().len() && self.names()[j] == n);
    }

    /// Cleanup of the page at position `i`.
    fn cleanup_at(&mut self, i: usize, app: &mut App)
        requires
            old(self).wf(),
            i < old(self).names().len(),
        ensures
            final(self).wf(),
            Self::changed_only_at(*old(self), *final(self), i as int),
            destroyed_from(old(self).page_at(i as int).lifecycle_spec(), final(self).page_at(i as int).lifecycle_spec()),
            *final(app) == *old(app),
    {
        let (name, mut page) = self.pages.remove(i);
        page.cleanup(app);
        self.pages.insert(i, (name, page));
        assert(self.names() =~= old(self).names());
    }

    /// Initialization of the page at position `i`.
    fn initialize_at(&mut self, i: usize, app: &mut App) -> (res: PageResult)
        requires
            old(self).wf(),
            i < old(self).names().len(),
        ensures
            res == PageResult::Success,
            final(self).wf(),
            Self::changed_only_at(*old(self), *final(self), i as int),
            initialized_from(old(self).page_at(i as int).lifecycle_spec(), final(self).page_at(i as int).lifecycle_spec()),
            *final(app) == *old(app),
    {
        let (name, mut page) = self.pages.remove(i);
        let res = page.initialize(app);
        self.pages.insert(i, (name, page));
        assert(self.names() =~= old(self).names());
        res
    }

    /// Update of the page at position `i`.
    fn update_at(&mut self, i: usize, app: &mut App) -> (res: PageResult)
        requires
            old(self).wf(),
            i < old(self).names().len(),
            old(self).page_at(i as int).lifecycle_spec().update_count_spec() < u32::MAX,
        ensures
            res == PageResult::Success,
            final(self).wf(),
            Self::changed_only_at(*old(self), *final(self), i as int),
            updated_from(old(self).page_at(i as int).lifecycle_spec(), final(self).page_at(i as int).lifecycle_spec()),
            *final(app) == *old(app),
    {
        let (name, mut page) = self.pages.remove(i);
        let res = page.update(app);
        self.pages.insert(i, (name, page));
        assert(self.names() =~= old(self).names());
        res
    }

    /// The page at position `i` handles an event.
    fn handle_event_at(&mut self, i: usize, event: PageEvent, app: &mut App) -> (res: EventResult)
        requires
            old(self).wf(),
            i < old(self).names().len(),
        ensures
            final(self).wf(),
            Self::unchanged(*old(self), *final(self)),
            *final(app) == old(self).page_at(i as int).app_after(*old(app), event),
            old(self).page_at(i as int).response(*old(app), event, res),
    {
        let (name, mut page) = self.pages.remove(i);
        let res = page.handle_event(event, app);
        self.pages.insert(i, (name, page));
        assert(self.names() =~= old(self).names());
        res
    }

    /// Find the position of the page registered under `name`.
    fn find_page(&self, name: &str) -> (res: Option<usize>)
        requires
            self.wf(),
        ensures
            match res {
                Some(i) => i < self.names().len() && self.names()[i as int] == name@ && i == self.index_of(name@),
                None => !self.has_page(name@),
            },
    {
        let mut i: usize = 0;
        while i < self.pages.len()
            invariant
                self.wf(),
                0 <= i <= self.pages@.len(),
                forall|k: int| 0 <= k < i ==> self.names()[k] != name@,
            decreases self.pages@.len() - i,
        {
            if str_eq(self.pages[i].0.as_str(), name) {
                assert(self.names()[i as int] == name@);
                assert(self.has_page(name@));
                let ghost j = self.index_of(name@);
                assert(self.names()[j] == name@);
                return Some(i);
            }
            i = i + 1;
        }
        assert forall|k: int| 0 <= k < self.names().len() implies self.names()[k] != name@ by {}
        None
    }

    /// Register a page under a name. A page already registered under that name is
    /// replaced, keeping its position; a new name is added at the end.
    pub fn register_page(&mut self, name: &str, page: AnyPage)
        requires
            old(self).wf(),
        ensures
            final(self).wf(),
            final(self).page_map() == old(self).page_map().insert(name@, page),
            final(self).current_spec() == old(self).current_spec(),
            final(self).enabled_spec() == old(self).enabled_spec(),
            old(self).has_page(name@) ==> final(self).names() == old(self).names(),
            !old(self).has_page(name@) ==> final(self).names() == old(self).names().push(name@),
            final(self).page_named(name@) == page,
            forall|i: int|
                0 <= i < old(self).names().len() && old(self).names()[i] != name@
                    ==> #[trigger] final(self).page_at(i) == old(self).page_at(i),
    {
        let found = self.find_page(name);
        match found {
            Some(k) => {
                let _ = self.pages.remove(k);
                self.pages.insert(k, (name.to_owned(), page));
                proof {
                    assert(self.names() =~= old(self).names().update(k as int, name@));
                    assert(self.names() =~= old(self).names());
                    self.lemma_index_of_unique(k as int);
                }
            },
            None => {
                self.pages.push((name.to_owned(), page));
                proof {
                    assert(self.names() =~= old(self).names().push(name@));
                    let last = old(self).names().len() as int;
                    assert forall|i: int, j: int|
                        0 <= i < self.names().len() && 0 <= j < self.names().len() && i != j
                            implies #[trigger] self.names()[i] != #[trigger] self.names()[j] by {
                        if i == last {
                            assert(old(self).names()[j] != name@);
                        } else if j == last {
                            assert(old(self).names()[i] != name@);
                        }
                    }
                    self.lemma_index_of_unique(last);
                }
            },
        }
        proof {
            let m_old = old(self).page_map();
            let m_new = self.page_map();
            assert forall|n: Seq<char>| #[trigger] m_new.dom().contains(n) <==> m_old.insert(name@, page).dom().contains(n) by {
                if old(self).has_page(n) {
                    let j = old(self).index_of(n);
                    assert(self.names()[j] == n);
                }
                if self.has_page(n) && n != name@ {
                    let j = self.index_of(n);
                    assert(old(self).names()[j] == n);
                }
            }
            assert forall|n: Seq<char>| #[trigger] m_new.dom().contains(n) implies m_new[n] == m_old.insert(name@, page)[n] by {
                if n != name@ {
                    let j = old(self).index_of(n);
                    assert(old(self).names()[j] == n);
                    assert(self.names()[j] == n);
                    self.lemma_index_of_unique(j);
                }
            }
            assert(m_new =~= m_old.insert(name@, page));
        }
    }

    /// Move to the page registered under `page_name`: the current page is cleaned up,
    /// the target becomes current and is initialized, and the application state
    /// follows the page. An unknown name is refused with an error and changes nothing.
    pub fn navigate_to(&mut self, page_name: &str, app: &mut App) -> (res: PageResult)
        requires
            old(self).wf(),
        ensures
            final(self).wf(),
            Self::navigate_result(*old(self), page_name@, res),
            Self::moved(*old(self), *final(self), page_name@, *old(app), *final(app)),
    {
        let target = self.find_page(page_name);
        match target {
            None => {
                let mut msg = "Page '".to_owned();
                msg.append(page_name);
                msg.append("' not found");
                proof {
                    assert(Self::unchanged(*old(self), *self));
                    assert(!old(self).has_page(page_name@));
                    assert(*app == *old(app));
                }
                PageResult::Error(msg)
            },
            Some(t) => {
                let ghost s0 = *self;
                let current = self.find_page(self.current_page.as_str());
                if let Some(c) = current {
                    self.cleanup_at(c, app);
                }
                let ghost s1 = *self;
                let ghost a1 = *app;
                self.current_page = page_name.to_owned();
                proof {
                    assert(self.names() == s1.names());
                }
                let res = self.initialize_at(t, app);
                self.update_app_state_for_page(page_name, app);
                proof {
                    assert(self.names() == s0.names());
                    assert(s0 == *old(self));
                    assert forall|i: int| 0 <= i < s0.names().len() implies #[trigger] self.page_at(i).same_kind(s0.page_at(i)) by {
                        if current is Some {
                            assert(s1.page_at(i).same_kind(s0.page_at(i)));
                        } else {
                            assert(s1.page_at(i) == s0.page_at(i));
                        }
                    }
                    let tt = t as int;
                    if current is Some {
                        assert(destroyed_from(s0.page_at(current->0 as int).lifecycle_spec(), s1.page_at(current->0 as int).lifecycle_spec()));
                        if current->0 as int == tt {
                            assert(initialized_from(s0.page_at(tt).lifecycle_spec(), self.page_at(tt).lifecycle_spec()));
                        } else {
                            assert(s1.page_at(tt) == s0.page_at(tt));
                        }
                    } else {
                        assert(s1.page_at(tt) == s0.page_at(tt));
                    }
                    assert forall|i: int| 0 <= i < s0.names().len() && i != tt implies (if s0.has_page(s0.current_spec()) && i == s0.index_of(s0.current_spec()) {
                        destroyed_from(s0.page_at(i).lifecycle_spec(), self.page_at(i).lifecycle_spec())
                    } else {
                        #[trigger] self.page_at(i) == s0.page_at(i)
                    }) by {
                        assert(self.page_at(i) == s1.page_at(i));
                        if current is Some && i != current->0 as int {
                            assert(s1.page_at(i) == s0.page_at(i));
                        } else if current is None {
                            assert(s1.page_at(i) == s0.page_at(i));
                        }
                    }
                }
                res
            },
        }
    }

    /// Set the application state to the one that matches the page.
    fn update_app_state_for_page(&self, page_name: &str, app: &mut App)
        ensures
            *final(app) == app_on_page(*old(app), page_name@),
    {
        proof {
            reveal_strlit("service_list");
            reveal_strlit("instance_list");
            reveal_strlit("metrics_summary");
            reveal_strlit("instance_details");
        }
        if str_eq(page_name, "service_list") {
            app.state = AppState::ServiceList;
        } else if str_eq(page_name, "instance_list") {
            app.state = AppState::InstanceList;
        } else if str_eq(page_name, "metrics_summary") {
            app.state = AppState::MetricsSummary;
        } else if str_eq(page_name, "instance_details") {
            app.state = AppState::InstanceDetails;
        }
    }

    /// The name of the current page.
    pub fn current_page(&self) -> (res: &str)
        ensures
            res@ == self.current_spec(),
    {
        self.current_page.as_str()
    }

    /// Update the current page. Nothing happens while the page system is disabled; a
    /// current page that is not registered is reported as an error.
    pub fn update(&mut self, app: &mut App) -> (res: PageResult)
        requires
            old(self).wf(),
            old(self).enabled_spec() && old(self).has_page(old(self).current_spec())
                ==> old(self).page_named(old(self).current_spec()).lifecycle_spec().update_count_spec() < u32::MAX,
        ensures
            final(self).wf(),
            *final(app) == *old(app),
            !old(self).enabled_spec() ==> res == PageResult::Success && Self::unchanged(*old(self), *final(self)),
            old(self).enabled_spec() && old(self).has_page(old(self).current_spec()) ==> {
                &&& res == PageResult::Success
                &&& Self::changed_only_at(*old(self), *final(self), old(self).index_of(old(self).current_spec()))
                &&& updated_from(
                    old(self).page_named(old(self).current_spec()).lifecycle_spec(),
                    final(self).page_named(old(self).current_spec()).lifecycle_spec(),
                )
            },
            old(self).enabled_spec() && !old(self).has_page(old(self).current_spec()) ==> {
                &&& res is Error
                &&& res->Error_0@ == current_not_found_message(old(self).current_spec())
                &&& Self::unchanged(*old(self), *final(self))
            },
    {
        if !self.enabled {
            return PageResult::Success;
        }
        let found = self.find_page(self.current_page.as_str());
        match found {
            Some(i) => {
                let res = self.update_at(i, app);
                proof {
                    self.lemma_index_of_unique(i as int);
                }
                res
            },
            None => {
                let mut msg = "Current page '".to_owned();
                msg.append(self.current_page.as_str());
                msg.append("' not found");
                PageResult::Error(msg)
            },
        }
    }

    /// Route an event to the current page. A navigation that the page asks for is
    /// carried out; what the page answered is returned either way.
    pub fn handle_event(&mut self, event: PageEvent, app: &mut App) -> (res: EventResult)
        requires
            old(self).wf(),
        ensures
            final(self).wf(),
            !(old(self).enabled_spec() && old(self).has_page(old(self).current_spec())) ==> {
                &&& res == EventResult::NotHandled
                &&& Self::unchanged(*old(self), *final(self))
                &&& *final(app) == *old(app)
            },
            old(self).enabled_spec() && old(self).has_page(old(self).current_spec()) ==> {
                let page = old(self).page_named(old(self).current_spec());
                let app1 = page.app_after(*old(app), event);
                &&& page.response(*old(app), event, res)
                &&& if res is Action && res->Action_0 is Navigate {
                    Self::moved(*old(self), *final(self), res->Action_0->Navigate_0@, app1, *final(app))
                } else {
                    Self::unchanged(*old(self), *final(self)) && *final(app) == app1
                }
            },
    {
        if !self.enabled {
            return EventResult::NotHandled;
        }
        let found = self.find_page(self.current_page.as_str());
        match found {
            Some(i) => {
                let res = self.handle_event_at(i, event, app);
                let ghost s1 = *self;
                if let EventResult::Action(PageResult::Navigate(target)) = &res {
                    let _ = self.navigate_to(target.as_str(), app);
                    proof {
                        assert(s1.names() == old(self).names());
                        assert forall|n: Seq<char>| s1.index_of(n) == old(self).index_of(n) by {}
                    }
                }
                res
            },
            None => EventResult::NotHandled,
        }
    }

    /// Enable or disable the page system.
    pub fn set_enabled(&mut self, enabled: bool)
        requires
            old(self).wf(),
        ensures
            final(self).wf(),
            final(self).enabled_spec() == enabled,
            final(self).names() == old(self).names(),
            final(self).current_spec() == old(self).current_spec(),
            forall|j: int| 0 <= j < old(self).names().len() ==> #[trigger] final(self).page_at(j) == old(self).page_at(j),
    {
        self.enabled = enabled;
    }

    /// Whether the page system is enabled.
    pub fn is_enabled(&self) -> (res: bool)
        ensures
            res == self.enabled_spec(),
    {
        self.enabled
    }

    /// The title of the current page, or "Unknown Page" when it is not registered.
    pub fn current_page_title(&self) -> (res: String)
        requires
            self.wf(),
        ensures
            res@ == (if self.has_page(self.current_spec()) {
                self.page_named(self.current_spec()).title_spec()
            } else {
                "Unknown Page"@
            }),
    {
        match self.find_page(self.current_page.as_str()) {
            Some(i) => self.pages[i].1.title(),
            None => "Unknown Page".to_owned(),
        }
    }

    /// Whether the current page offers back navigation; false when it is not registered.
    pub fn can_navigate_back(&self) -> (res: bool)
        requires
            self.wf(),
        ensures
            res == (self.has_page(self.current_spec()) && self.page_named(self.current_spec()).can_navigate_back_spec()),
    {
        match self.find_page(self.current_page.as_str()) {
            Some(i) => self.pages[i].1.can_navigate_back(),
            None => false,
        }
    }

    /// Go back one step along service list, instance list, metrics summary, instance
    /// details. There is no step back from any other page.
    pub fn navigate_back(&mut self, app: &mut App) -> (res: PageResult)
        requires
            old(self).wf(),
        ensures
            final(self).wf(),
            match previous_page(old(self).current_spec()) {
                Some(p) => Self::navigate_result(*old(self), p, res) && Self::moved(
                    *old(self),
                    *final(self),
                    p,
                    *old(app),
                    *final(app),
                ),
                None => {
                    &&& res is Error
                    &&& res->Error_0@ == "Cannot navigate back from this page"@
                    &&& Self::unchanged(*old(self), *final(self))
                    &&& *final(app) == *old(app)
                },
            },
    {
        proof {
            reveal_strlit("service_list");
            reveal_strlit("instance_list");
            reveal_strlit("metrics_summary");
            reveal_strlit("instance_details");
        }
        let previous = if str_eq(self.current_page.as_str(), "instance_list") {
            "service_list"
        } else if str_eq(self.current_page.as_str(), "metrics_summary") {
            "instance_list"
        } else if str_eq(self.current_page.as_str(), "instance_details") {
            "metrics_summary"
        } else {
            return PageResult::Error("Cannot navigate back from this page".to_owned());
        };
        self.navigate_to(previous, app)
    }

    /// Bring the current page in line with the application state: navigate to the
    /// page of that state unless it is already current.
    pub fn sync_with_app_state(&mut self, app: &mut App) -> (res: PageResult)
        requires
            old(self).wf(),
        ensures
            final(self).wf(),
            page_for_state(old(app).state) == old(self).current_spec() ==> {
                &&& res == PageResult::Success
                &&& Self::unchanged(*old(self), *final(self))
                &&& *final(app) == *old(app)
            },
            page_for_state(old(app).state) != old(self).current_spec() ==> {
                &&& Self::navigate_result(*old(self), page_for_state(old(app).state), res)
                &&& Self::moved(*old(self), *final(self), page_for_state(old(app).state), *old(app), *final(app))
            },
    {
        proof {
            reveal_strlit("service_list");
            reveal_strlit("instance_list");
            reveal_strlit("metrics_summary");
            reveal_strlit("instance_details");
        }
        let target = match app.state {
            AppState::ServiceList => "service_list",
            AppState::InstanceList => "instance_list",
            AppState::MetricsSummary => "metrics_summary",
            AppState::InstanceDetails => "instance_details",
        };
        if !str_eq(target, self.current_page.as_str()) {
            self.navigate_to(target, app)
        } else {
            PageResult::Success
        }
    }

    /// Create a new page manager with the four default pages, on the service list.
    pub fn new() -> (res: Self)
        ensures
            res.wf(),
            res.current_spec() == "service_list"@,
            res.enabled_spec(),
            res.names() == seq!["service_list"@, "instance_list"@, "metrics_summary"@, "instance_details"@],
            res.page_at(0) is ServiceList,
            res.page_at(1) is InstanceList,
            res.page_at(2) is MetricsSummary,
            res.page_at(3) is InstanceDetails,
            forall|i: int| 0 <= i < 4 ==> (#[trigger] res.page_at(i)).lifecycle_spec().state_spec()
                == super::lifecycle::LifecycleState::Initializing,
    {
        let mut pages: Vec<(String, AnyPage)> = Vec::new();
        pages.push(("service_list".to_owned(), AnyPage::ServiceList(ServiceListPage::new())));
        pages.push(("instance_list".to_owned(), AnyPage::InstanceList(InstanceListPage::new())));
        pages.push(("metrics_summary".to_owned(), AnyPage::MetricsSummary(MetricsSummaryPage::new())));
        pages.push(("instance_details".to_owned(), AnyPage::InstanceDetails(InstanceDetailsPage::new())));
        let res = PageManager { current_page: "service_list".to_owned(), pages, enabled: true };
        proof {
            reveal_strlit("service_list");
            reveal_strlit("instance_list");
            reveal_strlit("metrics_summary");
            reveal_strlit("instance_details");
            assert(res.names() =~= seq!["service_list"@, "instance_list"@, "metrics_summary"@, "instance_details"@]);
            assert(res.names()[0].len() == 12 && res.names()[1].len() == 13);
            assert(res.names()[2].len() == 15 && res.names()[3].len() == 16);
        }
        res
    }
}

/// The page of a state leads back to the same state, whatever state the
/// application was in before.
pub proof fn lemma_page_state_round_trip(state: AppState, current: AppState)
    ensures
        state_for_page(page_for_state(state), current) == state,
{
    reveal_strlit("service_list");
    reveal_strlit("instance_list");
    reveal_strlit("metrics_summary");
    reveal_strlit("instance_details");
    assert("service_list"@.len() == 12 && "instance_list"@.len() == 13);
    assert("metrics_summary"@.len() == 15 && "instance_details"@.len() == 16);
}

/// After a sync that navigates, the current page is the page of the application
/// state, and the application state is as it was.
pub proof fn lemma_sync_lands_on_state_page(old: PageManager, new: PageManager, app_old: App, app_new: App)
    requires
        old.has_page(page_for_state(app_old.state)),
        PageManager::navigated(old, new, page_for_state(app_old.state), app_old, app_new),
    ensures
        new.current_spec() == page_for_state(app_new.state),
        app_new == app_old,
{
    lemma_page_state_round_trip(app_old.state, app_old.state);
}

/// Going back never stays on the same page, and there is no way back from the
/// service list.
pub proof fn lemma_back_moves(name: Seq<char>)
    ensures
        previous_page(name) matches Some(p) ==> p != name,
        previous_page("service_list"@) is None,
{
    reveal_strlit("service_list");
    reveal_strlit("instance_list");
    reveal_strlit("metrics_summary");
    reveal_strlit("instance_details");
    assert("service_list"@.len() == 12 && "instance_list"@.len() == 13);
    assert("metrics_summary"@.len() == 15 && "instance_details"@.len() == 16);
}

impl Default for PageManager {
    fn default() -> (res: Self)
        ensures
            res.wf(),
            res.current_spec() == "service_list"@,
            res.enabled_spec(),
            res.names() == seq!["service_list"@, "instance_list"@, "metrics_summary"@, "instance_details"@],
    {
        Self::new()
    }
}

} // verus!
