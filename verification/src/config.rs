//! Configuration records consumed by the orchestrator: remote server
//! descriptions, local application descriptions, and user preferences.

use vstd::prelude::*;

verus! {

/// Description of one remote server that hosts the containerized service.
pub struct ServerConfig {
    pub id: String,
    pub name: String,
    pub host: String,
    pub port: u16,
    pub username: String,
    pub ssh_key_path: String,
    pub portal_port: u16,
    pub portal_path: String,
}

/// Description of one local desktop application the supervisor may launch.
pub struct LocalAppConfig {
    pub id: String,
    pub name: String,
    pub executable_path: String,
    pub working_directory: Option<String>,
}

/// User preferences; persisted by the surrounding shell, consumed here
/// as plain values.
pub struct Preferences {
    pub auto_start_portal: bool,
    pub minimize_to_tray: bool,
    pub startup_launch: bool,
}

/// The whole configuration document: servers, local apps, preferences.
pub struct AppConfig {
    pub version: String,
    pub servers: Vec<ServerConfig>,
    pub local_apps: Vec<LocalAppConfig>,
    pub preferences: Preferences,
}

/// Default value used for boolean preference fields that are on unless
/// the stored document says otherwise.
pub fn default_true() -> (b: bool)
    ensures
        b,
{
    true
}

/// The first server whose id is `id`, if any.
pub open spec fn spec_get_server(servers: Seq<ServerConfig>, id: Seq<char>) -> Option<ServerConfig>
    decreases servers.len(),
{
    if servers.len() == 0 {
        None
    } else if servers.first().id@ == id {
        Some(servers.first())
    } else {
        spec_get_server(servers.drop_first(), id)
    }
}

/// The first local app whose id is `id`, if any.
pub open spec fn spec_get_local_app(apps: Seq<LocalAppConfig>, id: Seq<char>) -> Option<
    LocalAppConfig,
>
    decreases apps.len(),
{
    if apps.len() == 0 {
        None
    } else if apps.first().id@ == id {
        Some(apps.first())
    } else {
        spec_get_local_app(apps.drop_first(), id)
    }
}

impl AppConfig {
    /// The first configured server carrying `id`, if any.
    pub fn get_server(&self, id: &str) -> (r: Option<&ServerConfig>)
        ensures
            match r {
                Some(s) => spec_get_server(self.servers@, id@) == Some(*s),
                None => spec_get_server(self.servers@, id@) is None,
            },
    {
        let needle = String::from_str(id);
        let n = self.servers.len();
        let mut i: usize = 0;
        proof {
            assert(self.servers@.skip(0) =~= self.servers@);
        }
        while i < n
            invariant
                n == self.servers@.len(),
                i <= n,
                needle@ == id@,
                spec_get_server(self.servers@.skip(i as int), id@) == spec_get_server(
                    self.servers@,
                    id@,
                ),
            decreases n - i,
        {
            let ghost tail = self.servers@.skip(i as int);
            proof {
                assert(tail.first() == self.servers@[i as int]);
                assert(tail.drop_first() =~= self.servers@.skip(i as int + 1));
            }
            if self.servers[i].id == needle {
                return Some(&self.servers[i]);
            }
            i += 1;
        }
        proof {
            assert(self.servers@.skip(n as int) =~= Seq::<ServerConfig>::empty());
        }
        None
    }

    /// The first configured local app carrying `id`, if any.
    pub fn get_local_app(&self, id: &str) -> (r: Option<&LocalAppConfig>)
        ensures
            match r {
                Some(a) => spec_get_local_app(self.local_apps@, id@) == Some(*a),
                None => spec_get_local_app(self.local_apps@, id@) is None,
            },
    {
        let needle = String::from_str(id);
        let n = self.local_apps.len();
        let mut i: usize = 0;
        proof {
            assert(self.local_apps@.skip(0) =~= self.local_apps@);
        }
        while i < n
            invariant
                n == self.local_apps@.len(),
                i <= n,
                needle@ == id@,
                spec_get_local_app(self.local_apps@.skip(i as int), id@) == spec_get_local_app(
                    self.local_apps@,
                    id@,
                ),
            decreases n - i,
        {
            let ghost tail = self.local_apps@.skip(i as int);
            proof {
                assert(tail.first() == self.local_apps@[i as int]);
                assert(tail.drop_first() =~= self.local_apps@.skip(i as int + 1));
            }
            if self.local_apps[i].id == needle {
                return Some(&self.local_apps[i]);
            }
            i += 1;
        }
        proof {
            assert(self.local_apps@.skip(n as int) =~= Seq::<LocalAppConfig>::empty());
        }
        None
    }
}

impl Default for Preferences {
    fn default() -> (p: Preferences)
        ensures
            p.auto_start_portal,
            p.minimize_to_tray,
            !p.startup_launch,
    {
        Preferences { auto_start_portal: true, minimize_to_tray: true, startup_launch: false }
    }
}

impl Default for AppConfig {
    fn default() -> (c: AppConfig)
        ensures
            c.version@ == "1.0"@,
            c.servers@.len() == 0,
            c.local_apps@.len() == 0,
            c.preferences.auto_start_portal,
            c.preferences.minimize_to_tray,
            !c.preferences.startup_launch,
    {
        AppConfig {
            version: String::from_str("1.0"),
            servers: Vec::new(),
            local_apps: Vec::new(),
            preferences: Preferences::default(),
        }
    }
}

} // verus!
