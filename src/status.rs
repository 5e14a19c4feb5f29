//! One row of the VM status table, as the front end shows it.
use vstd::prelude::*;
use crate::text::{decimal, decimal_string};
use crate::types::{VMInstance, VMState};
use crate::vm::{state_label, state_name};

verus! {

/// A short human reading of a number of seconds: seconds under a minute,
/// minutes under an hour, hours and minutes under a day, else days and
/// hours.
pub open spec fn duration_text(secs: nat) -> Seq<char> {
    if secs < 60 {
        decimal(secs) + "s"@
    } else if secs < 3600 {
        decimal(secs / 60) + "m"@
    } else if secs < 86400 {
        decimal(secs / 3600) + "h "@ + decimal((secs % 3600) / 60) + "m"@
    } else {
        decimal(secs / 86400) + "d "@ + decimal((secs % 86400) / 3600) + "h"@
    }
}

/// A short human reading of a number of seconds.
pub fn format_duration(secs: u64) -> (r: String)
    ensures
        r@ == duration_text(secs as nat),
{
    proof {
        reveal_strlit("s");
        reveal_strlit("m");
        reveal_strlit("h ");
        reveal_strlit("h");
        reveal_strlit("d ");
    }
    if secs < 60 {
        decimal_string(secs).concat("s")
    } else if secs < 3600 {
        decimal_string(secs / 60).concat("m")
    } else if secs < 86400 {
        decimal_string(secs / 3600).concat("h ").concat(decimal_string((secs % 3600) / 60).as_str()).concat("m")
    } else {
        decimal_string(secs / 86400).concat("d ").concat(decimal_string((secs % 86400) / 3600).as_str()).concat(
            "h",
        )
    }
}

/// One row of the status table.
#[derive(Clone, Debug)]
pub struct VMStatus {
    pub name: String,
    pub state: String,
    pub cpus: u32,
    pub memory: String,
    pub uptime: String,
    pub ip: String,
}

/// Whole seconds from `from` to `to`, both in milliseconds; zero where
/// `to` is earlier.
pub open spec fn elapsed_secs(from: i64, to: i64) -> nat {
    if (to as int) > (from as int) {
        (((to as int) - (from as int)) / 1000) as nat
    } else {
        0
    }
}

impl VMStatus {
    /// The row of a VM at time `now` (milliseconds since the epoch): its
    /// uptime since creation where it is running, else "-".
    pub fn of(vm: &VMInstance, now: i64) -> (r: VMStatus)
        ensures
            r.name == vm.name,
            r.state@ == state_label(vm.state),
            r.cpus == vm.config.cpus,
            r.memory@ == decimal(vm.config.memory_mb as nat) + "MB"@,
            r.uptime@ == (if vm.state == VMState::Running {
                duration_text(elapsed_secs(vm.created_at, now))
            } else {
                "-"@
            }),
            r.ip == vm.config.network.guest_ip,
    {
        proof {
            reveal_strlit("MB");
            reveal_strlit("-");
        }
        let uptime = if vm.state == VMState::Running {
            let secs: u64 = if (now as i128) > (vm.created_at as i128) {
                (((now as i128) - (vm.created_at as i128)) / 1000) as u64
            } else {
                0
            };
            format_duration(secs)
        } else {
            String::from_str("-")
        };
        VMStatus {
            name: vm.name.clone(),
            state: String::from_str(state_name(vm.state)),
            cpus: vm.config.cpus,
            memory: decimal_string(vm.config.memory_mb).concat("MB"),
            uptime,
            ip: vm.config.network.guest_ip.clone(),
        }
    }
}

} // verus!
