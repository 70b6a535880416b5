//! Convenience functions for the desktop commands.

use crate::command::options::{SetDesktopOption, SyncOption};
use crate::command::sub_commands::Desktop;
use crate::command::Command;
use crate::decimal::{decimal, to_decimal};
use crate::invocation::Invocation;
use crate::optionvec::OptionVec;
use crate::XServer;
use vstd::prelude::*;

verus! {

impl XServer {
    /// Activates `window`, switching to the desktop that holds it where it
    /// is on another one.
    pub fn activate_window(&self, window: &str, options: OptionVec<SyncOption>) -> (inv:
        Invocation)
        ensures
            inv@ == self.run_view(Command::Desktop(Desktop::WindowActivate(options)), window@),
    {
        self.run(Command::Desktop(Desktop::WindowActivate(options)), window)
    }

    /// Reports the active window.
    pub fn get_active_window(&self) -> (inv: Invocation)
        ensures
            inv@ == self.run_view(Command::Desktop(Desktop::GetActiveWindow), Seq::empty()),
    {
        proof {
            reveal_strlit("");
            assert(""@ =~= Seq::empty());
        }
        self.run(Command::Desktop(Desktop::GetActiveWindow), "")
    }

    /// Changes the number of desktops to `num`.
    pub fn set_num_desktops(&self, num: u8) -> (inv: Invocation)
        ensures
            inv@ == self.run_view(
                Command::Desktop(Desktop::SetNumDesktops),
                decimal(num as nat),
            ),
    {
        let args = to_decimal(num as u64);
        self.run(Command::Desktop(Desktop::SetNumDesktops), args.as_str())
    }

    /// Reports the number of desktops.
    pub fn get_num_desktops(&self) -> (inv: Invocation)
        ensures
            inv@ == self.run_view(Command::Desktop(Desktop::GetNumDesktops), Seq::empty()),
    {
        proof {
            reveal_strlit("");
            assert(""@ =~= Seq::empty());
        }
        self.run(Command::Desktop(Desktop::GetNumDesktops), "")
    }

    /// Moves the viewport to the position `x`, `y`.
    pub fn set_desktop_viewport(&self, x: u16, y: u16) -> (inv: Invocation)
        ensures
            inv@ == self.run_view(
                Command::Desktop(Desktop::SetDesktopViewport),
                decimal(x as nat) + seq![' '] + decimal(y as nat),
            ),
    {
        let mut args = to_decimal(x as u64);
        args.append(" ");
        args.append(to_decimal(y as u64).as_str());
        proof {
            reveal_strlit(" ");
            assert(args@ =~= decimal(x as nat) + seq![' '] + decimal(y as nat));
        }
        self.run(Command::Desktop(Desktop::SetDesktopViewport), args.as_str())
    }

    /// Reports the position of the viewport.
    pub fn get_desktop_viewport(&self) -> (inv: Invocation)
        ensures
            inv@ == self.run_view(Command::Desktop(Desktop::GetDesktopViewport), Seq::empty()),
    {
        proof {
            reveal_strlit("");
            assert(""@ =~= Seq::empty());
        }
        self.run(Command::Desktop(Desktop::GetDesktopViewport), "")
    }

    /// Switches to the desktop `desktop_number`.
    pub fn set_desktop(&self, desktop_number: u8, options: OptionVec<SetDesktopOption>) -> (inv:
        Invocation)
        ensures
            inv@ == self.run_view(
                Command::Desktop(Desktop::SetDesktop(options)),
                decimal(desktop_number as nat),
            ),
    {
        let args = to_decimal(desktop_number as u64);
        self.run(Command::Desktop(Desktop::SetDesktop(options)), args.as_str())
    }

    /// Reports the desktop in view.
    pub fn get_desktop(&self) -> (inv: Invocation)
        ensures
            inv@ == self.run_view(Command::Desktop(Desktop::GetDesktop), Seq::empty()),
    {
        proof {
            reveal_strlit("");
            assert(""@ =~= Seq::empty());
        }
        self.run(Command::Desktop(Desktop::GetDesktop), "")
    }

    /// Moves `window` to the desktop `desktop_number`.
    pub fn set_desktop_for_window(&self, window: &str, desktop_number: u8) -> (inv: Invocation)
        ensures
            inv@ == self.run_view(
                Command::Desktop(Desktop::SetDesktopForWindow),
                window@ + seq![' '] + decimal(desktop_number as nat),
            ),
    {
        let mut args = String::from_str(window);
        args.append(" ");
        args.append(to_decimal(desktop_number as u64).as_str());
        proof {
            reveal_strlit(" ");
            assert(args@ =~= window@ + seq![' '] + decimal(desktop_number as nat));
        }
        self.run(Command::Desktop(Desktop::SetDesktopForWindow), args.as_str())
    }

    /// Reports the desktop that holds `window`.
    pub fn get_desktop_for_window(&self, window: &str) -> (inv: Invocation)
        ensures
            inv@ == self.run_view(Command::Desktop(Desktop::GetDesktopForWindow), window@),
    {
        self.run(Command::Desktop(Desktop::GetDesktopForWindow), window)
    }
}

} // verus!
