//! The service's `--init-config` command line: which options it takes and
//! how they change the configuration.
use vstd::prelude::*;

use crate::config::{pin_fits, pin_verdict, AppConfig, PinVerdict};
use crate::error::Result;

verus! {

/// The options of `--init-config`.
#[derive(Debug)]
pub struct InitConfigOptions {
    /// `--config <path>`: where the configuration lives.
    pub config_path: Option<String>,
    /// `--protected-user-sid <sid>`: the user to protect.
    pub protected_user_sid: Option<String>,
    /// `--all-users`: protect whoever is logged in.
    pub all_users: bool,
    /// `--pin <pin>`: the new parent PIN.
    pub pin: Option<String>,
    /// `--warn-only` (true) or `--enforce-lock` (false).
    pub warn_only: Option<bool>,
}

/// The options after reading `args[i..]` onto `o`, or the message of the
/// first error.
pub open spec fn read_options(args: Seq<Seq<char>>, i: int, o: InitConfigView) -> std::result::Result<InitConfigView, Seq<char>>
    decreases args.len() - i,
{
    if i >= args.len() || i < 0 {
        Ok(o)
    } else {
        let a = args[i];
        if a == "--config"@ || a == "--protected-user-sid"@ || a == "--pin"@ {
            if i + 1 >= args.len() {
                Err("missing value for "@ + a)
            } else {
                let v = args[i + 1];
                let next = if a == "--config"@ {
                    InitConfigView { config_path: Some(v), ..o }
                } else if a == "--protected-user-sid"@ {
                    InitConfigView { protected_user_sid: Some(v), ..o }
                } else {
                    InitConfigView { pin: Some(v), ..o }
                };
                read_options(args, i + 2, next)
            }
        } else if a == "--all-users"@ {
            read_options(args, i + 1, InitConfigView { all_users: true, ..o })
        } else if a == "--warn-only"@ {
            read_options(args, i + 1, InitConfigView { warn_only: Some(true), ..o })
        } else if a == "--enforce-lock"@ {
            read_options(args, i + 1, InitConfigView { warn_only: Some(false), ..o })
        } else {
            Err("unsupported init-config argument: "@ + a)
        }
    }
}

/// The options as mathematical values.
pub struct InitConfigView {
    pub config_path: Option<Seq<char>>,
    pub protected_user_sid: Option<Seq<char>>,
    pub all_users: bool,
    pub pin: Option<Seq<char>>,
    pub warn_only: Option<bool>,
}

/// The view of an optional text.
pub open spec fn opt_view(t: Option<String>) -> Option<Seq<char>> {
    match t {
        Some(s) => Some(s@),
        None => None,
    }
}

impl View for InitConfigOptions {
    type V = InitConfigView;

    open spec fn view(&self) -> InitConfigView {
        InitConfigView {
            config_path: opt_view(self.config_path),
            protected_user_sid: opt_view(self.protected_user_sid),
            all_users: self.all_users,
            pin: opt_view(self.pin),
            warn_only: self.warn_only,
        }
    }
}

/// No options given.
pub open spec fn no_options() -> InitConfigView {
    InitConfigView {
        config_path: None,
        protected_user_sid: None,
        all_users: false,
        pin: None,
        warn_only: None,
    }
}

/// The views of the arguments.
pub open spec fn args_view(args: Seq<String>) -> Seq<Seq<char>> {
    args.map_values(|a: String| a@)
}

/// What a command line asks for: nothing (`None`) unless it starts with
/// `--init-config` or `--reset-pin`; then the options that follow, or the
/// message of the first error. `--reset-pin` must be given `--pin`.
pub open spec fn command_options(args: Seq<Seq<char>>) -> Option<std::result::Result<InitConfigView, Seq<char>>> {
    if args.len() > 0 && args[0] == "--init-config"@ {
        Some(read_options(args, 1, no_options()))
    } else if args.len() > 0 && args[0] == "--reset-pin"@ {
        match read_options(args, 1, no_options()) {
            Ok(v) => if v.pin is Some {
                Some(Ok(v))
            } else {
                Some(Err("--reset-pin needs --pin <pin>"@))
            },
            Err(m) => Some(Err(m)),
        }
    } else {
        None
    }
}

/// Reads the command line after the program name: `Ok(None)` when it does
/// not start with `--init-config` or `--reset-pin`; otherwise the options
/// that follow, or the message of the first error.
pub fn parse_init_config(args: &Vec<String>) -> (r: std::result::Result<Option<InitConfigOptions>, String>)
    ensures
        match command_options(args_view(args@)) {
            None => r matches Ok(None),
            Some(Ok(v)) => r matches Ok(Some(o)) && o@ == v,
            Some(Err(m)) => r matches Err(msg) && msg@ == m,
        },
{
    let ghost view = args_view(args@);
    if args.len() == 0 {
        return Ok(None);
    }
    let init = args[0] == "--init-config".to_owned();
    let reset = args[0] == "--reset-pin".to_owned();
    proof {
        reveal_strlit("--init-config");
        reveal_strlit("--reset-pin");
        assert(view[0] == args@[0]@);
    }
    if !init && !reset {
        return Ok(None);
    }
    let mut options = InitConfigOptions {
        config_path: None,
        protected_user_sid: None,
        all_users: false,
        pin: None,
        warn_only: None,
    };
    let mut i: usize = 1;
    while i < args.len()
        invariant
            1 <= i <= args.len() + 1,
            view == args_view(args@),
            args@.len() > 0,
            init == (view[0] == "--init-config"@),
            reset == (view[0] == "--reset-pin"@),
            init || reset,
            "--init-config"@ != "--reset-pin"@,
            read_options(view, 1, no_options()) == read_options(view, i as int, options@),
        decreases args.len() + 1 - i,
    {
        let a = &args[i];
        assert(view[i as int] == a@);
        if *a == "--config".to_owned() || *a == "--protected-user-sid".to_owned() || *a
            == "--pin".to_owned() {
            if i + 1 >= args.len() {
                return Err("missing value for ".to_owned().concat(a.as_str()));
            }
            let v = args[i + 1].clone();
            assert(view[i + 1] == v@);
            if *a == "--config".to_owned() {
                options.config_path = Some(v);
            } else if *a == "--protected-user-sid".to_owned() {
                options.protected_user_sid = Some(v);
            } else {
                options.pin = Some(v);
            }
            i = i + 2;
        } else if *a == "--all-users".to_owned() {
            options.all_users = true;
            i = i + 1;
        } else if *a == "--warn-only".to_owned() {
            options.warn_only = Some(true);
            i = i + 1;
        } else if *a == "--enforce-lock".to_owned() {
            options.warn_only = Some(false);
            i = i + 1;
        } else {
            return Err("unsupported init-config argument: ".to_owned().concat(a.as_str()));
        }
    }
    if reset && options.pin.is_none() {
        return Err("--reset-pin needs --pin <pin>".to_owned());
    }
    Ok(Some(options))
}

impl InitConfigOptions {
    /// Applies the options to `config`: `--all-users` clears the protected
    /// user, else a given user is set; a given PIN is set; a given mode is
    /// set. On error (hashing the PIN failed) the error is returned.
    pub fn apply(&self, config: &mut AppConfig) -> (r: Result<()>)
        ensures
            final(config).protected_user_sid == if self.all_users {
                None
            } else if self.protected_user_sid is Some {
                self.protected_user_sid
            } else {
                old(config).protected_user_sid
            },
            r is Ok ==> final(config).warn_only == match self.warn_only {
                Some(w) => w,
                None => old(config).warn_only,
            },
            r is Ok && self.pin is Some ==> pin_verdict(final(config).pin_hash, self.pin->0@)
                == PinVerdict::Accepted,
            r is Ok && self.pin is None ==> final(config).pin_hash == old(config).pin_hash,
            (self.pin matches Some(p) ==> pin_fits(p@)) ==> r is Ok,
            r matches Err(e) ==> {
                &&& e is SecretSeal
                &&& self.pin is Some
                &&& final(config).pin_hash == old(config).pin_hash
                &&& final(config).warn_only == old(config).warn_only
            },
            final(config).unlock_expires_at_utc == old(config).unlock_expires_at_utc,
            final(config).unlock_expiry_action == old(config).unlock_expiry_action,
            final(config).last_agent_heartbeat_utc == old(config).last_agent_heartbeat_utc,
    {
        if self.all_users {
            config.protected_user_sid = None;
        } else if let Some(sid) = &self.protected_user_sid {
            config.protected_user_sid = Some(sid.clone());
        }
        if let Some(pin) = &self.pin {
            config.set_pin(pin.as_str())?;
        }
        if let Some(value) = self.warn_only {
            config.warn_only = value;
        }
        Ok(())
    }
}

} // verus!
