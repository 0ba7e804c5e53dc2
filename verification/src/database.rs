//! The gateway's database configuration and the steps that bring its database
//! up: connect to the server's maintenance database, create the gateway's
//! database when it is missing, connect to it and run the migrations.
use vstd::prelude::*;
use vstd::string::*;
use crate::urls::{parse_url, parsed_url, set_url_path, url_with_path, WebUrl};

verus! {

/// How the gateway reaches its PostgreSQL server.
pub struct DatabaseConfig {
    /// Hostname
    pub db_hostname: String,
    /// Username
    pub db_user: String,
    /// Password
    pub db_password: String,
    /// Database Name
    pub db_name: String,
}

/// The connection text of a configuration: `postgres://{user}:{password}@{host}`.
pub open spec fn connection_text(user: Seq<char>, password: Seq<char>, host: Seq<char>) -> Seq<char> {
    "postgres://"@ + user + ":"@ + password + "@"@ + host
}

/// The statement that creates a database: `CREATE DATABASE "{name}"`.
pub open spec fn create_database_text(name: Seq<char>) -> Seq<char> {
    "CREATE DATABASE \""@ + name + "\""@
}

/// The name of the maintenance database that the first connection uses.
pub open spec fn maintenance_database() -> Seq<char> {
    "postgres"@
}

impl DatabaseConfig {
    /// The configuration's connection text.
    pub open spec fn spec_connection_text(&self) -> Seq<char> {
        connection_text(self.db_user@, self.db_password@, self.db_hostname@)
    }

    /// The connection text, as the configuration displays itself.
    pub fn to_string(&self) -> (r: String)
        ensures
            r@ == self.spec_connection_text(),
    {
        let mut r = "postgres://".to_owned();
        r.append(self.db_user.as_str());
        r.append(":");
        r.append(self.db_password.as_str());
        r.append("@");
        r.append(self.db_hostname.as_str());
        r
    }

    /// The statement that creates the configured database.
    pub fn create_database_statement(&self) -> (r: String)
        ensures
            r@ == create_database_text(self.db_name@),
            r@.len() == self.db_name@.len() + 18,
            r@.subrange(17, self.db_name@.len() as int + 17) == self.db_name@,
    {
        let mut r = "CREATE DATABASE \"".to_owned();
        r.append(self.db_name.as_str());
        r.append("\"");
        proof {
            lemma_statement_quotes_name(self.db_name@);
        }
        r
    }

    /// The connection text parsed as a URL, with its path set to that of the
    /// maintenance database; `None` where the connection text is no URL.
    pub fn maintenance_url(&self) -> (r: Option<WebUrl>)
        ensures
            r is Some <==> parsed_url(self.spec_connection_text()) is Some,
            r matches Some(u) ==> u.spec_text() == url_with_path(
                parsed_url(self.spec_connection_text())->0,
                maintenance_database(),
            ),
    {
        let text = self.to_string();
        match parse_url(text.as_str()) {
            Ok(mut url) => {
                set_url_path(&mut url, "postgres");
                Some(url)
            },
            Err(_) => None,
        }
    }
}

/// Where the bring-up of the database stands.
#[derive(Clone, Copy, PartialEq, Eq, Structural, Debug)]
pub enum ProvisionPhase {
    /// Connecting to the maintenance database.
    ConnectingAdmin,
    /// Asking whether the configured database exists.
    CheckingDatabase,
    /// Creating the configured database.
    CreatingDatabase,
    /// Connecting to the configured database.
    ConnectingTarget,
    /// Running the migrations.
    Migrating,
    /// Done: the connection pool is ready.
    Ready,
    /// A step failed; its error is handed to the caller.
    Failed,
    /// A step failed that the service does not survive.
    Aborted,
}

/// What the last requested step came back with.
pub enum ProvisionEvent {
    /// The step succeeded.
    Succeeded,
    /// The step failed.
    Failed,
    /// The answer to the existence question.
    DatabaseExists(bool),
}

/// The next thing to do.
pub enum ProvisionAction {
    /// Open a pool of at most `max_connections` connections to `url` (the maintenance database).
    ConnectAdmin { url: String, max_connections: u32 },
    /// Ask whether a database named `name` exists.
    CheckDatabase { name: String },
    /// Run `statement` on the maintenance connection.
    CreateDatabase { statement: String },
    /// Open a pool of at most `max_connections` connections to `url` (the configured database).
    ConnectTarget { url: String, max_connections: u32 },
    /// Run the migrations on the configured database.
    RunMigrations,
    /// Hand the configured database's pool to the caller.
    Finish,
    /// Hand the error of the failed step to the caller.
    ReturnError,
    /// Stop the service: this failure is not recoverable.
    Abort,
    /// Nothing: the event does not answer a pending step.
    Ignore,
}

/// One transition of the bring-up of a database named `name`: from `phase`
/// with the connection URL `url`, on `event`, to `next` with the URL
/// `next_url`, and `action`.
pub open spec fn provision_step(
    phase: ProvisionPhase,
    url: Seq<char>,
    event: ProvisionEvent,
    name: Seq<char>,
    next: ProvisionPhase,
    next_url: Seq<char>,
    action: ProvisionAction,
) -> bool {
    &&& next_url == if action is ConnectTarget {
        url_with_path(url, name)
    } else {
        url
    }
    &&& match (phase, event) {
        (ProvisionPhase::ConnectingAdmin, ProvisionEvent::Succeeded) => {
            &&& next == ProvisionPhase::CheckingDatabase
            &&& action matches ProvisionAction::CheckDatabase { name: n } && n@ == name
        },
        (ProvisionPhase::CheckingDatabase, ProvisionEvent::DatabaseExists(false)) => {
            &&& next == ProvisionPhase::CreatingDatabase
            &&& action matches ProvisionAction::CreateDatabase { statement } && statement@
                == create_database_text(name)
        },
        (ProvisionPhase::CheckingDatabase, ProvisionEvent::DatabaseExists(true))
        | (ProvisionPhase::CreatingDatabase, ProvisionEvent::Succeeded) => {
            &&& next == ProvisionPhase::ConnectingTarget
            &&& action matches ProvisionAction::ConnectTarget { url: u, max_connections } && u@
                == url_with_path(url, name) && max_connections == 5
        },
        (ProvisionPhase::ConnectingTarget, ProvisionEvent::Succeeded) => {
            &&& next == ProvisionPhase::Migrating
            &&& action is RunMigrations
        },
        (ProvisionPhase::Migrating, ProvisionEvent::Succeeded) => {
            &&& next == ProvisionPhase::Ready
            &&& action is Finish
        },
        (ProvisionPhase::ConnectingTarget, ProvisionEvent::Failed) => {
            &&& next == ProvisionPhase::Aborted
            &&& action is Abort
        },
        (ProvisionPhase::ConnectingAdmin, ProvisionEvent::Failed)
        | (ProvisionPhase::CheckingDatabase, ProvisionEvent::Failed)
        | (ProvisionPhase::CreatingDatabase, ProvisionEvent::Failed)
        | (ProvisionPhase::Migrating, ProvisionEvent::Failed) => {
            &&& next == ProvisionPhase::Failed
            &&& action is ReturnError
        },
        _ => {
            &&& next == phase
            &&& action is Ignore
        },
    }
}

/// The bring-up of the gateway's database, driven one step at a time.
pub struct DatabaseProvisioner {
    config: DatabaseConfig,
    url: WebUrl,
    phase: ProvisionPhase,
}

impl DatabaseProvisioner {
    /// The configuration being brought up.
    pub closed spec fn spec_config(&self) -> DatabaseConfig {
        self.config
    }

    /// The URL the last connection was (or is being) made to.
    pub closed spec fn spec_url(&self) -> Seq<char> {
        self.url.spec_text()
    }

    /// Where the bring-up stands.
    pub closed spec fn spec_phase(&self) -> ProvisionPhase {
        self.phase
    }

    /// Starts the bring-up: parses the connection text as a URL, sets its path
    /// to the maintenance database and asks to connect there with one
    /// connection. Where the connection text is no URL there is nothing to
    /// bring up and the service is to stop.
    pub fn start(config: DatabaseConfig) -> (r: (Option<DatabaseProvisioner>, ProvisionAction))
        ensures
            parsed_url(config.spec_connection_text()) is Some ==> {
                let admin = url_with_path(parsed_url(config.spec_connection_text())->0, maintenance_database());
                &&& r.0 matches Some(p) && p.spec_config() == config && p.spec_phase()
                    == ProvisionPhase::ConnectingAdmin && p.spec_url() == admin
                &&& r.1 matches ProvisionAction::ConnectAdmin { url, max_connections } && url@ == admin
                    && max_connections == 1
            },
            parsed_url(config.spec_connection_text()) is None ==> r.0 is None && r.1 is Abort,
    {
        match config.maintenance_url() {
            Some(url) => {
                let admin = url.as_str().to_owned();
                let p = DatabaseProvisioner { config, url, phase: ProvisionPhase::ConnectingAdmin };
                (Some(p), ProvisionAction::ConnectAdmin { url: admin, max_connections: 1 })
            },
            None => (None, ProvisionAction::Abort),
        }
    }

    /// Where the bring-up stands.
    pub fn phase(&self) -> (r: ProvisionPhase)
        ensures
            r == self.spec_phase(),
    {
        self.phase
    }

    /// Takes the outcome of the pending step and says what to do next.
    pub fn step(&mut self, event: ProvisionEvent) -> (action: ProvisionAction)
        ensures
            final(self).spec_config() == old(self).spec_config(),
            provision_step(
                old(self).spec_phase(),
                old(self).spec_url(),
                event,
                old(self).spec_config().db_name@,
                final(self).spec_phase(),
                final(self).spec_url(),
                action,
            ),
    {
        match (self.phase, event) {
            (ProvisionPhase::ConnectingAdmin, ProvisionEvent::Succeeded) => {
                self.phase = ProvisionPhase::CheckingDatabase;
                ProvisionAction::CheckDatabase { name: self.config.db_name.clone() }
            },
            (ProvisionPhase::CheckingDatabase, ProvisionEvent::DatabaseExists(false)) => {
                self.phase = ProvisionPhase::CreatingDatabase;
                ProvisionAction::CreateDatabase { statement: self.config.create_database_statement() }
            },
            (ProvisionPhase::CheckingDatabase, ProvisionEvent::DatabaseExists(true))
            | (ProvisionPhase::CreatingDatabase, ProvisionEvent::Succeeded) => {
                self.phase = ProvisionPhase::ConnectingTarget;
                set_url_path(&mut self.url, self.config.db_name.as_str());
                ProvisionAction::ConnectTarget { url: self.url.as_str().to_owned(), max_connections: 5 }
            },
            (ProvisionPhase::ConnectingTarget, ProvisionEvent::Succeeded) => {
                self.phase = ProvisionPhase::Migrating;
                ProvisionAction::RunMigrations
            },
            (ProvisionPhase::Migrating, ProvisionEvent::Succeeded) => {
                self.phase = ProvisionPhase::Ready;
                ProvisionAction::Finish
            },
            (ProvisionPhase::ConnectingTarget, ProvisionEvent::Failed) => {
                self.phase = ProvisionPhase::Aborted;
                ProvisionAction::Abort
            },
            (ProvisionPhase::ConnectingAdmin, ProvisionEvent::Failed)
            | (ProvisionPhase::CheckingDatabase, ProvisionEvent::Failed)
            | (ProvisionPhase::CreatingDatabase, ProvisionEvent::Failed)
            | (ProvisionPhase::Migrating, ProvisionEvent::Failed) => {
                self.phase = ProvisionPhase::Failed;
                ProvisionAction::ReturnError
            },
            _ => ProvisionAction::Ignore,
        }
    }
}

/// The configured database is created only when the existence check
/// answered that it is missing, and then with `CREATE DATABASE "<name>"`.
pub proof fn lemma_create_only_when_missing(
    phase: ProvisionPhase,
    url: Seq<char>,
    event: ProvisionEvent,
    name: Seq<char>,
    next: ProvisionPhase,
    next_url: Seq<char>,
    action: ProvisionAction,
)
    requires
        provision_step(phase, url, event, name, next, next_url, action),
        action is CreateDatabase,
    ensures
        phase == ProvisionPhase::CheckingDatabase,
        event == ProvisionEvent::DatabaseExists(false),
        action matches ProvisionAction::CreateDatabase { statement } && statement@ == create_database_text(name),
{
}

/// The configured database is connected to only once it is known to exist:
/// the check found it, or its creation succeeded.
pub proof fn lemma_target_only_when_present(
    phase: ProvisionPhase,
    url: Seq<char>,
    event: ProvisionEvent,
    name: Seq<char>,
    next: ProvisionPhase,
    next_url: Seq<char>,
    action: ProvisionAction,
)
    requires
        provision_step(phase, url, event, name, next, next_url, action),
        action is ConnectTarget,
    ensures
        (phase == ProvisionPhase::CheckingDatabase && event == ProvisionEvent::DatabaseExists(true)) || (phase
            == ProvisionPhase::CreatingDatabase && event == ProvisionEvent::Succeeded),
        action matches ProvisionAction::ConnectTarget { url: u, .. } && u@ == url_with_path(url, name),
        next_url == url_with_path(url, name),
{
}

/// The pool is handed over only once the migrations have succeeded.
pub proof fn lemma_finish_only_after_migrations(
    phase: ProvisionPhase,
    url: Seq<char>,
    event: ProvisionEvent,
    name: Seq<char>,
    next: ProvisionPhase,
    next_url: Seq<char>,
    action: ProvisionAction,
)
    requires
        provision_step(phase, url, event, name, next, next_url, action),
        action is Finish,
    ensures
        phase == ProvisionPhase::Migrating,
        event == ProvisionEvent::Succeeded,
        next == ProvisionPhase::Ready,
{
}

/// A bring-up that is over (ready, failed or aborted) does nothing more.
pub proof fn lemma_finished_provisioning_is_inert(
    phase: ProvisionPhase,
    url: Seq<char>,
    event: ProvisionEvent,
    name: Seq<char>,
    next: ProvisionPhase,
    next_url: Seq<char>,
    action: ProvisionAction,
)
    requires
        provision_step(phase, url, event, name, next, next_url, action),
        phase == ProvisionPhase::Ready || phase == ProvisionPhase::Failed || phase == ProvisionPhase::Aborted,
    ensures
        next == phase,
        next_url == url,
        action is Ignore,
{
}

/// Whether a server holding `databases` gives `event` as the answer to the
/// step that `phase` waits on: an existence check answers whether `name` is
/// one of them.
pub open spec fn server_answers(
    phase: ProvisionPhase,
    event: ProvisionEvent,
    name: Seq<char>,
    databases: Set<Seq<char>>,
) -> bool {
    (phase == ProvisionPhase::CheckingDatabase && event is DatabaseExists) ==> event
        == ProvisionEvent::DatabaseExists(databases.contains(name))
}

/// The server's databases after the step: a creation that succeeded adds `name`.
pub open spec fn databases_after(
    phase: ProvisionPhase,
    event: ProvisionEvent,
    name: Seq<char>,
    databases: Set<Seq<char>>,
) -> Set<Seq<char>> {
    if phase == ProvisionPhase::CreatingDatabase && event == ProvisionEvent::Succeeded {
        databases.insert(name)
    } else {
        databases
    }
}

/// A run of the bring-up of `name` against a server that no other client
/// changes: step `i` goes from `phases[i]` and `urls[i]`, on `events[i]`
/// (the server's answer), to `phases[i + 1]` and `urls[i + 1]` with
/// `actions[i]`, while the server's databases go from `databases[i]` to
/// `databases[i + 1]`.
pub open spec fn bring_up_run(
    name: Seq<char>,
    phases: Seq<ProvisionPhase>,
    urls: Seq<Seq<char>>,
    events: Seq<ProvisionEvent>,
    actions: Seq<ProvisionAction>,
    databases: Seq<Set<Seq<char>>>,
) -> bool {
    &&& phases.len() == events.len() + 1
    &&& urls.len() == phases.len()
    &&& actions.len() == events.len()
    &&& databases.len() == phases.len()
    &&& forall|i: int|
        #![trigger events[i]]
        0 <= i < events.len() ==> {
            &&& provision_step(phases[i], urls[i], events[i], name, phases[i + 1], urls[i + 1], actions[i])
            &&& server_answers(phases[i], events[i], name, databases[i])
            &&& databases[i + 1] == databases_after(phases[i], events[i], name, databases[i])
        }
}

/// The phases in which the configured database is known to exist.
pub open spec fn database_known(phase: ProvisionPhase) -> bool {
    phase == ProvisionPhase::ConnectingTarget || phase == ProvisionPhase::Migrating || phase
        == ProvisionPhase::Ready
}

proof fn lemma_run_knows_database(
    name: Seq<char>,
    phases: Seq<ProvisionPhase>,
    urls: Seq<Seq<char>>,
    events: Seq<ProvisionEvent>,
    actions: Seq<ProvisionAction>,
    databases: Seq<Set<Seq<char>>>,
    k: int,
)
    requires
        bring_up_run(name, phases, urls, events, actions, databases),
        phases[0] == ProvisionPhase::ConnectingAdmin,
        0 <= k < phases.len(),
    ensures
        database_known(phases[k]) ==> databases[k].contains(name),
    decreases k,
{
    if k > 0 {
        lemma_run_knows_database(name, phases, urls, events, actions, databases, k - 1);
        assert(databases[k] == databases_after(phases[k - 1], events[k - 1], name, databases[k - 1]));
    }
}

proof fn lemma_run_keeps_database(
    name: Seq<char>,
    phases: Seq<ProvisionPhase>,
    urls: Seq<Seq<char>>,
    events: Seq<ProvisionEvent>,
    actions: Seq<ProvisionAction>,
    databases: Seq<Set<Seq<char>>>,
    k: int,
)
    requires
        bring_up_run(name, phases, urls, events, actions, databases),
        databases[0].contains(name),
        0 <= k < phases.len(),
    ensures
        databases[k].contains(name),
    decreases k,
{
    if k > 0 {
        lemma_run_keeps_database(name, phases, urls, events, actions, databases, k - 1);
        assert(databases[k] == databases_after(phases[k - 1], events[k - 1], name, databases[k - 1]));
    }
}

/// A bring-up that ends ready leaves the configured database on the server.
pub proof fn lemma_ready_bring_up_leaves_database(
    name: Seq<char>,
    phases: Seq<ProvisionPhase>,
    urls: Seq<Seq<char>>,
    events: Seq<ProvisionEvent>,
    actions: Seq<ProvisionAction>,
    databases: Seq<Set<Seq<char>>>,
)
    requires
        bring_up_run(name, phases, urls, events, actions, databases),
        phases[0] == ProvisionPhase::ConnectingAdmin,
        phases.last() == ProvisionPhase::Ready,
    ensures
        databases.last().contains(name),
{
    lemma_run_knows_database(name, phases, urls, events, actions, databases, phases.len() - 1);
}

/// A bring-up against a server that already holds the configured database
/// creates no database.
pub proof fn lemma_existing_database_not_created(
    name: Seq<char>,
    phases: Seq<ProvisionPhase>,
    urls: Seq<Seq<char>>,
    events: Seq<ProvisionEvent>,
    actions: Seq<ProvisionAction>,
    databases: Seq<Set<Seq<char>>>,
)
    requires
        bring_up_run(name, phases, urls, events, actions, databases),
        databases[0].contains(name),
    ensures
        forall|i: int| 0 <= i < actions.len() ==> !(#[trigger] actions[i] is CreateDatabase),
{
    assert forall|i: int| 0 <= i < actions.len() implies !(#[trigger] actions[i] is CreateDatabase) by {
        lemma_run_keeps_database(name, phases, urls, events, actions, databases, i);
        assert(server_answers(phases[i], events[i], name, databases[i]));
        if actions[i] is CreateDatabase {
            lemma_create_only_when_missing(phases[i], urls[i], events[i], name, phases[i + 1], urls[i + 1], actions[i]);
        }
    }
}

/// Bringing the database up a second time, after a bring-up that ended
/// ready and with no other client changing the server in between, creates
/// no database: every existence check finds it.
pub proof fn lemma_second_bring_up_creates_nothing(
    name: Seq<char>,
    phases1: Seq<ProvisionPhase>,
    urls1: Seq<Seq<char>>,
    events1: Seq<ProvisionEvent>,
    actions1: Seq<ProvisionAction>,
    databases1: Seq<Set<Seq<char>>>,
    phases2: Seq<ProvisionPhase>,
    urls2: Seq<Seq<char>>,
    events2: Seq<ProvisionEvent>,
    actions2: Seq<ProvisionAction>,
    databases2: Seq<Set<Seq<char>>>,
)
    requires
        bring_up_run(name, phases1, urls1, events1, actions1, databases1),
        phases1[0] == ProvisionPhase::ConnectingAdmin,
        phases1.last() == ProvisionPhase::Ready,
        bring_up_run(name, phases2, urls2, events2, actions2, databases2),
        databases2[0] == databases1.last(),
    ensures
        forall|i: int| 0 <= i < actions2.len() ==> !(#[trigger] actions2[i] is CreateDatabase),
        forall|i: int|
            0 <= i < events2.len() && phases2[i] == ProvisionPhase::CheckingDatabase && events2[i] is DatabaseExists
                ==> #[trigger] events2[i] == ProvisionEvent::DatabaseExists(true),
{
    lemma_ready_bring_up_leaves_database(name, phases1, urls1, events1, actions1, databases1);
    lemma_existing_database_not_created(name, phases2, urls2, events2, actions2, databases2);
    assert forall|i: int|
        0 <= i < events2.len() && phases2[i] == ProvisionPhase::CheckingDatabase && events2[i] is DatabaseExists
            implies #[trigger] events2[i] == ProvisionEvent::DatabaseExists(true) by {
        lemma_run_keeps_database(name, phases2, urls2, events2, actions2, databases2, i);
    }
}

/// Whether `event` is the server's answer to the step that `phase` waits
/// on, with nothing failing: an existence check answers whether `name` is
/// among `databases`, every other step succeeds.
pub open spec fn answered_without_failure(
    phase: ProvisionPhase,
    event: ProvisionEvent,
    name: Seq<char>,
    databases: Set<Seq<char>>,
) -> bool {
    if phase == ProvisionPhase::CheckingDatabase {
        event == ProvisionEvent::DatabaseExists(databases.contains(name))
    } else {
        event == ProvisionEvent::Succeeded
    }
}

/// Bringing the database up a second time, after a bring-up that ended ready
/// and with no other client changing the server in between, succeeds when
/// the server answers each step: it connects, finds the database, connects
/// to it, runs the migrations and hands the pool over, creating nothing.
pub proof fn lemma_second_bring_up_succeeds(
    name: Seq<char>,
    phases1: Seq<ProvisionPhase>,
    urls1: Seq<Seq<char>>,
    events1: Seq<ProvisionEvent>,
    actions1: Seq<ProvisionAction>,
    databases1: Seq<Set<Seq<char>>>,
    phases2: Seq<ProvisionPhase>,
    urls2: Seq<Seq<char>>,
    events2: Seq<ProvisionEvent>,
    actions2: Seq<ProvisionAction>,
    databases2: Seq<Set<Seq<char>>>,
)
    requires
        bring_up_run(name, phases1, urls1, events1, actions1, databases1),
        phases1[0] == ProvisionPhase::ConnectingAdmin,
        phases1.last() == ProvisionPhase::Ready,
        bring_up_run(name, phases2, urls2, events2, actions2, databases2),
        phases2[0] == ProvisionPhase::ConnectingAdmin,
        databases2[0] == databases1.last(),
        events2.len() == 4,
        forall|i: int|
            0 <= i < 4 ==> answered_without_failure(phases2[i], #[trigger] events2[i], name, databases2[i]),
    ensures
        phases2 == seq![
            ProvisionPhase::ConnectingAdmin,
            ProvisionPhase::CheckingDatabase,
            ProvisionPhase::ConnectingTarget,
            ProvisionPhase::Migrating,
            ProvisionPhase::Ready,
        ],
        actions2[0] is CheckDatabase,
        actions2[1] is ConnectTarget,
        actions2[2] is RunMigrations,
        actions2[3] is Finish,
        databases2.last() == databases2[0],
{
    lemma_ready_bring_up_leaves_database(name, phases1, urls1, events1, actions1, databases1);
    assert(answered_without_failure(phases2[0], events2[0], name, databases2[0]));
    assert(answered_without_failure(phases2[1], events2[1], name, databases2[1]));
    assert(answered_without_failure(phases2[2], events2[2], name, databases2[2]));
    assert(answered_without_failure(phases2[3], events2[3], name, databases2[3]));
    assert(databases2[1] == databases2[0]);
    assert(databases2[2] == databases2[1]);
    assert(databases2[3] == databases2[2]);
    assert(databases2[4] == databases2[3]);
    assert(phases2 =~= seq![
        ProvisionPhase::ConnectingAdmin,
        ProvisionPhase::CheckingDatabase,
        ProvisionPhase::ConnectingTarget,
        ProvisionPhase::Migrating,
        ProvisionPhase::Ready,
    ]);
}

/// The migrations applied to the configured database after the step, for a
/// migration set `migrations`: a migration step that succeeds leaves every
/// migration of the set applied (those already applied are not run again).
pub open spec fn migrations_after(
    phase: ProvisionPhase,
    event: ProvisionEvent,
    applied: Set<nat>,
    migrations: Set<nat>,
) -> Set<nat> {
    if phase == ProvisionPhase::Migrating && event == ProvisionEvent::Succeeded {
        applied.union(migrations)
    } else {
        applied
    }
}

/// The configured database's applied migrations along a run of the bring-up.
pub open spec fn schema_run(
    phases: Seq<ProvisionPhase>,
    events: Seq<ProvisionEvent>,
    applied: Seq<Set<nat>>,
    migrations: Set<nat>,
) -> bool {
    &&& applied.len() == phases.len()
    &&& forall|i: int|
        #![trigger events[i]]
        0 <= i < events.len() ==> applied[i + 1] == migrations_after(phases[i], events[i], applied[i], migrations)
}

proof fn lemma_ready_run_applied_all(
    name: Seq<char>,
    phases: Seq<ProvisionPhase>,
    urls: Seq<Seq<char>>,
    events: Seq<ProvisionEvent>,
    actions: Seq<ProvisionAction>,
    databases: Seq<Set<Seq<char>>>,
    applied: Seq<Set<nat>>,
    migrations: Set<nat>,
    k: int,
)
    requires
        bring_up_run(name, phases, urls, events, actions, databases),
        schema_run(phases, events, applied, migrations),
        phases[0] == ProvisionPhase::ConnectingAdmin,
        0 <= k < phases.len(),
    ensures
        phases[k] == ProvisionPhase::Ready ==> migrations.subset_of(applied[k]),
        forall|j: int| 0 <= j <= k ==> #[trigger] applied[j].subset_of(applied[k]),
    decreases k,
{
    if k > 0 {
        lemma_ready_run_applied_all(name, phases, urls, events, actions, databases, applied, migrations, k - 1);
        assert(applied[k] == migrations_after(phases[k - 1], events[k - 1], applied[k - 1], migrations));
        assert(provision_step(
            phases[k - 1],
            urls[k - 1],
            events[k - 1],
            name,
            phases[k],
            urls[k],
            actions[k - 1],
        ));
        assert(applied[k - 1].subset_of(applied[k]));
        assert forall|j: int| 0 <= j <= k implies #[trigger] applied[j].subset_of(applied[k]) by {
            if j < k {
                assert(applied[j].subset_of(applied[k - 1]));
                assert forall|x: nat| applied[j].contains(x) implies applied[k].contains(x) by {
                    assert(applied[k - 1].contains(x));
                }
            }
        }
    }
}

proof fn lemma_complete_schema_stays(
    phases: Seq<ProvisionPhase>,
    events: Seq<ProvisionEvent>,
    applied: Seq<Set<nat>>,
    migrations: Set<nat>,
    k: int,
)
    requires
        schema_run(phases, events, applied, migrations),
        phases.len() == events.len() + 1,
        migrations.subset_of(applied[0]),
        0 <= k < phases.len(),
    ensures
        applied[k] == applied[0],
    decreases k,
{
    if k > 0 {
        lemma_complete_schema_stays(phases, events, applied, migrations, k - 1);
        assert(applied[k] == migrations_after(phases[k - 1], events[k - 1], applied[k - 1], migrations));
        assert(applied[k - 1].union(migrations) =~= applied[k - 1]);
    }
}

/// Bringing the database up a second time, after a bring-up that ended ready
/// and with no other client changing the server in between, leaves the
/// configured database's schema as the first bring-up left it: the first
/// applied every migration, and the second applies none.
pub proof fn lemma_second_bring_up_keeps_schema(
    name: Seq<char>,
    phases1: Seq<ProvisionPhase>,
    urls1: Seq<Seq<char>>,
    events1: Seq<ProvisionEvent>,
    actions1: Seq<ProvisionAction>,
    databases1: Seq<Set<Seq<char>>>,
    applied1: Seq<Set<nat>>,
    phases2: Seq<ProvisionPhase>,
    events2: Seq<ProvisionEvent>,
    applied2: Seq<Set<nat>>,
    migrations: Set<nat>,
)
    requires
        bring_up_run(name, phases1, urls1, events1, actions1, databases1),
        schema_run(phases1, events1, applied1, migrations),
        phases1[0] == ProvisionPhase::ConnectingAdmin,
        phases1.last() == ProvisionPhase::Ready,
        phases2.len() == events2.len() + 1,
        schema_run(phases2, events2, applied2, migrations),
        applied2[0] == applied1.last(),
    ensures
        migrations.subset_of(applied1.last()),
        forall|i: int| 0 <= i < applied2.len() ==> #[trigger] applied2[i] == applied1.last(),
{
    lemma_ready_run_applied_all(
        name,
        phases1,
        urls1,
        events1,
        actions1,
        databases1,
        applied1,
        migrations,
        phases1.len() - 1,
    );
    assert forall|i: int| 0 <= i < applied2.len() implies #[trigger] applied2[i] == applied1.last() by {
        lemma_complete_schema_stays(phases2, events2, applied2, migrations, i);
    }
}

/// The creation statement is `CREATE DATABASE "` followed by the whole name,
/// unchanged, and a closing quote.
pub proof fn lemma_statement_quotes_name(name: Seq<char>)
    ensures
        create_database_text(name).len() == name.len() + 18,
        create_database_text(name).subrange(0, 17) == "CREATE DATABASE \""@,
        create_database_text(name).subrange(17, name.len() as int + 17) == name,
        create_database_text(name).subrange(name.len() as int + 17, name.len() as int + 18) == "\""@,
{
    reveal_strlit("CREATE DATABASE \"");
    reveal_strlit("\"");
    let t = create_database_text(name);
    assert(t.subrange(0, 17) =~= "CREATE DATABASE \""@);
    assert(t.subrange(17, name.len() as int + 17) =~= name);
    assert(t.subrange(name.len() as int + 17, name.len() as int + 18) =~= "\""@);
}

/// Two names give the same creation statement only when they are the same name.
pub proof fn lemma_statement_distinguishes_names(first: Seq<char>, second: Seq<char>)
    ensures
        create_database_text(first) == create_database_text(second) ==> first == second,
{
    lemma_statement_quotes_name(first);
    lemma_statement_quotes_name(second);
}

/// The database a bring-up creates is the configured one: the name between the
/// statement's quotes is the name the existence check asked about, and the
/// one the next connection's path is set to.
pub proof fn lemma_created_database_is_configured(
    url: Seq<char>,
    name: Seq<char>,
    next: ProvisionPhase,
    next_url: Seq<char>,
    action: ProvisionAction,
    after: ProvisionPhase,
    after_url: Seq<char>,
    connect: ProvisionAction,
)
    requires
        provision_step(
            ProvisionPhase::CheckingDatabase,
            url,
            ProvisionEvent::DatabaseExists(false),
            name,
            next,
            next_url,
            action,
        ),
        provision_step(next, next_url, ProvisionEvent::Succeeded, name, after, after_url, connect),
    ensures
        action matches ProvisionAction::CreateDatabase { statement } && statement@.len() == name.len() + 18
            && statement@.subrange(17, name.len() as int + 17) == name,
        connect matches ProvisionAction::ConnectTarget { url: u, .. } && u@ == url_with_path(url, name),
{
    lemma_statement_quotes_name(name);
}

} // verus!
