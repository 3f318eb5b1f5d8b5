//! The settings of the server, with the values it starts from when no
//! configuration file exists. Some defaults differ between debug builds (which
//! read their secrets from `./dev`) and release builds.
use vstd::prelude::*;

verus! {

/// All settings of the server.
#[derive(Debug)]
pub struct Config {
    pub runtime: RuntimeConfig,
    pub service: ServiceConfig,
    pub network: NetworkConfig,
    pub database: DatabaseConfig,
    pub email: EmailConfig,
    pub log: LogConfig,
}

/// The settings of the asynchronous runtime.
#[derive(Debug)]
pub struct RuntimeConfig {
    pub max_io_events_per_tick: usize,
    pub thread_keep_alive: u64,
    pub global_queue_interval: u32,
    pub event_interval: u32,
    pub worker_threads: usize,
    pub max_blocking_threads: usize,
    /// Seconds between two rounds of upkeep.
    pub maintain_interval: u64,
}

/// The settings of the service itself.
#[derive(Debug)]
pub struct ServiceConfig {
    pub public_key: String,
    pub private_key: String,
    /// Hours until an authentication token expires.
    pub token_expiration: u64,
    /// The most items one request may ask for.
    pub item_request_limit: u32,
    /// Hours until a notification expires.
    pub notification_expiration_time: i64,
    pub resource_dir: String,
}

/// The settings of the network endpoint.
#[derive(Debug)]
pub struct NetworkConfig {
    pub address: String,
    pub rate_limit_replenish: u64,
    pub rate_limit_burst: u32,
}

/// The settings of the database connection and of text embedding.
#[derive(Debug)]
pub struct DatabaseConfig {
    pub user: String,
    /// The file that holds the database password.
    pub password: String,
    pub host: String,
    pub port: u16,
    pub max_pool_size: usize,
    pub log: bool,
    pub embedding_max_length: usize,
    pub embedding_threads: usize,
}

/// The settings of outgoing e-mail.
#[derive(Debug)]
pub struct EmailConfig {
    pub smtp: String,
    pub smtp_user: String,
    /// The file that holds the SMTP password.
    pub smtp_password: String,
    /// Seconds until a verification code expires.
    pub exp: u64,
    pub no_reply_mail: String,
}

/// The settings of logging.
#[derive(Debug)]
pub struct LogConfig {
    pub file_names: bool,
    pub targets: bool,
    pub level: String,
    pub threads: bool,
    pub time: bool,
}

impl Default for RuntimeConfig {
    fn default() -> (c: Self)
        ensures
            c.max_io_events_per_tick == 1024,
            c.thread_keep_alive == 10,
            c.global_queue_interval == 31,
            c.event_interval == 61,
            c.worker_threads == 4,
            c.max_blocking_threads == 256,
            c.maintain_interval == 600,
    {
        RuntimeConfig {
            max_io_events_per_tick: 1024,
            thread_keep_alive: 10,
            global_queue_interval: 31,
            event_interval: 61,
            worker_threads: 4,
            max_blocking_threads: 256,
            maintain_interval: 60 * 10,
        }
    }
}

impl ServiceConfig {
    /// The defaults of a debug build (`debug`) or a release build.
    pub fn for_build(debug: bool) -> (c: Self)
        ensures
            c.public_key@ == (if debug {
                "./dev/public-key.pem"@
            } else {
                "./secure/public-key.pem"@
            }),
            c.private_key@ == (if debug {
                "./dev/private-key.pem"@
            } else {
                "./secure/private-key.pem"@
            }),
            c.item_request_limit == 50,
            c.token_expiration == 168,
            c.notification_expiration_time == 144,
            c.resource_dir@ == (if debug {
                "./dev/resources"@
            } else {
                "./resources"@
            }),
    {
        ServiceConfig {
            public_key: if debug {
                String::from_str("./dev/public-key.pem")
            } else {
                String::from_str("./secure/public-key.pem")
            },
            private_key: if debug {
                String::from_str("./dev/private-key.pem")
            } else {
                String::from_str("./secure/private-key.pem")
            },
            item_request_limit: 50,
            token_expiration: 168,
            notification_expiration_time: 144,
            resource_dir: if debug {
                String::from_str("./dev/resources")
            } else {
                String::from_str("./resources")
            },
        }
    }
}

impl Default for NetworkConfig {
    fn default() -> (c: Self)
        ensures
            c.address@ == "127.0.0.1:50051"@,
            c.rate_limit_replenish == 100,
            c.rate_limit_burst == 30,
    {
        NetworkConfig {
            address: String::from_str("127.0.0.1:50051"),
            rate_limit_replenish: 100,
            rate_limit_burst: 30,
        }
    }
}

impl DatabaseConfig {
    /// The defaults of a debug build (`debug`) or a release build; only debug
    /// builds log their queries.
    pub fn for_build(debug: bool) -> (c: Self)
        ensures
            c.user@ == "postgres"@,
            c.password@ == (if debug {
                "./dev/database-password"@
            } else {
                "./secure/database-password"@
            }),
            c.host@ == "127.0.0.1"@,
            c.port == 5432,
            c.max_pool_size == 16,
            c.log == debug,
            c.embedding_max_length == 256,
            c.embedding_threads == 2,
    {
        DatabaseConfig {
            user: String::from_str("postgres"),
            password: if debug {
                String::from_str("./dev/database-password")
            } else {
                String::from_str("./secure/database-password")
            },
            host: String::from_str("127.0.0.1"),
            port: 5432,
            max_pool_size: 16,
            log: debug,
            embedding_max_length: 256,
            embedding_threads: 2,
        }
    }
}

impl EmailConfig {
    /// The defaults of a debug build (`debug`) or a release build: a local
    /// Mailhog server.
    pub fn for_build(debug: bool) -> (c: Self)
        ensures
            c.smtp@ == "127.0.0.1:1025"@,
            c.smtp_user@ == "user"@,
            c.smtp_password@ == (if debug {
                "./dev/smtp-password"@
            } else {
                "./secure/smtp-password"@
            }),
            c.exp == 3600,
            c.no_reply_mail@ == "no-reply@aura.social"@,
    {
        EmailConfig {
            smtp: String::from_str("127.0.0.1:1025"),
            smtp_user: String::from_str("user"),
            smtp_password: if debug {
                String::from_str("./dev/smtp-password")
            } else {
                String::from_str("./secure/smtp-password")
            },
            exp: 3600,
            no_reply_mail: String::from_str("no-reply@aura.social"),
        }
    }
}

impl Default for LogConfig {
    fn default() -> (c: Self)
        ensures
            !c.file_names,
            !c.targets,
            c.level@ == "info"@,
            !c.threads,
            !c.time,
    {
        LogConfig {
            file_names: false,
            targets: false,
            level: String::from_str("info"),
            threads: false,
            time: false,
        }
    }
}

impl Config {
    /// The defaults of a debug build (`debug`) or a release build.
    pub fn for_build(debug: bool) -> (c: Self)
        ensures
            c.runtime.maintain_interval == 600,
            c.service.item_request_limit == 50,
            c.service.token_expiration == 168,
            c.service.notification_expiration_time == 144,
            c.database.log == debug,
            c.email.exp == 3600,
            c.network.rate_limit_burst == 30,
            c.log.level@ == "info"@,
    {
        Config {
            runtime: RuntimeConfig::default(),
            service: ServiceConfig::for_build(debug),
            network: NetworkConfig::default(),
            database: DatabaseConfig::for_build(debug),
            email: EmailConfig::for_build(debug),
            log: LogConfig::default(),
        }
    }
}

} // verus!
