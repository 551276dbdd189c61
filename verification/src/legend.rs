//! The help bar: for every command of the active component that has a
//! key bound, a `[key] name` chip, stitched into one line.
//!
//! Drawing and the marquee timing live with the renderer; the crate
//! supplies the line itself and the pure scroll-step decision.

use vstd::prelude::*;

use crate::binding::{get_bindings, spec_bindings, Binding};
use crate::command::{Command, CommandId};
use crate::keycode::KeyCode;
use crate::text::{chars_to_string, push_char, spec_dec_digits, u8_dec_chars};

verus! {

/// The help bar's state: the rendered line.
#[derive(Debug)]
pub struct Legend {
    pub command_bindings_string: String,
}

/// The display name of a key.
pub open spec fn spec_key_string(k: KeyCode) -> Seq<char> {
    match k {
        KeyCode::Backspace => "Backspace"@,
        KeyCode::Enter => "Enter"@,
        KeyCode::Left => "Left Arrow"@,
        KeyCode::Right => "Right Arrow"@,
        KeyCode::Up => "Up Arrow"@,
        KeyCode::Down => "Down Arrow"@,
        KeyCode::Home => "Home"@,
        KeyCode::End => "End"@,
        KeyCode::PageUp => "Page Up"@,
        KeyCode::PageDown => "Page Down"@,
        KeyCode::Tab => "Tab"@,
        KeyCode::BackTab => "Back Tab"@,
        KeyCode::Delete => "Delete"@,
        KeyCode::Insert => "Insert"@,
        KeyCode::F(n) => "F"@ + spec_dec_digits(n as nat),
        KeyCode::Char(c) => seq![c],
        KeyCode::Esc => "Escape"@,
        KeyCode::Null => "Null"@,
        KeyCode::CapsLock => "Caps Lock"@,
        KeyCode::ScrollLock => "Scroll Lock"@,
        KeyCode::NumLock => "Num Lock"@,
        KeyCode::PrintScreen => "Print Screen"@,
        KeyCode::Pause => "Pause"@,
        KeyCode::Menu => "Menu"@,
        KeyCode::Unknown => "Unknown key"@,
    }
}

/// The display name of a key, as `spec_key_string` says.
pub fn keycode_to_string(keycode: KeyCode) -> (r: String)
    ensures
        r@ == spec_key_string(keycode),
{
    match keycode {
        KeyCode::Backspace => String::from_str("Backspace"),
        KeyCode::Enter => String::from_str("Enter"),
        KeyCode::Left => String::from_str("Left Arrow"),
        KeyCode::Right => String::from_str("Right Arrow"),
        KeyCode::Up => String::from_str("Up Arrow"),
        KeyCode::Down => String::from_str("Down Arrow"),
        KeyCode::Home => String::from_str("Home"),
        KeyCode::End => String::from_str("End"),
        KeyCode::PageUp => String::from_str("Page Up"),
        KeyCode::PageDown => String::from_str("Page Down"),
        KeyCode::Tab => String::from_str("Tab"),
        KeyCode::BackTab => String::from_str("Back Tab"),
        KeyCode::Delete => String::from_str("Delete"),
        KeyCode::Insert => String::from_str("Insert"),
        KeyCode::F(n) => {
            let mut r = String::from_str("F");
            let digits = u8_dec_chars(n);
            let digits_str = chars_to_string(&digits);
            r.append(digits_str.as_str());
            r
        },
        KeyCode::Char(c) => {
            let mut r = String::new();
            push_char(&mut r, c);
            proof {
                assert(r@ =~= seq![c]);
            }
            r
        },
        KeyCode::Esc => String::from_str("Escape"),
        KeyCode::Null => String::from_str("Null"),
        KeyCode::CapsLock => String::from_str("Caps Lock"),
        KeyCode::ScrollLock => String::from_str("Scroll Lock"),
        KeyCode::NumLock => String::from_str("Num Lock"),
        KeyCode::PrintScreen => String::from_str("Print Screen"),
        KeyCode::Pause => String::from_str("Pause"),
        KeyCode::Menu => String::from_str("Menu"),
        KeyCode::Unknown => String::from_str("Unknown key"),
    }
}

/// First-match lookup of the key bound to a command, over the tail `bs`
/// of the binding table.
pub open spec fn spec_key_for_from(bs: Seq<Binding>, id: CommandId) -> Option<KeyCode>
    decreases bs.len(),
{
    if bs.len() == 0 {
        None
    } else if bs[0].command_id == id {
        Some(bs[0].key_code)
    } else {
        spec_key_for_from(bs.drop_first(), id)
    }
}

/// The key the table binds to this command, if any.
pub open spec fn spec_key_for(id: CommandId) -> Option<KeyCode> {
    spec_key_for_from(spec_bindings(), id)
}

/// The key the table binds to this command, as `spec_key_for` says.
pub fn binding_key_for(id: CommandId) -> (r: Option<KeyCode>)
    ensures
        r == spec_key_for(id),
{
    let bindings = get_bindings();
    let n = bindings.len();
    let mut i: usize = 0;
    proof {
        assert(bindings@.skip(0) =~= bindings@);
    }
    while i < n
        invariant
            n == bindings@.len(),
            i <= n,
            bindings@ == spec_bindings(),
            spec_key_for(id) == spec_key_for_from(bindings@.skip(i as int), id),
        decreases n - i,
    {
        let b = bindings[i];
        proof {
            assert(bindings@.skip(i as int)[0] == bindings@[i as int]);
            assert(bindings@.skip(i as int).drop_first() =~= bindings@.skip(i + 1));
        }
        if b.command_id == id {
            return Some(b.key_code);
        }
        i = i + 1;
    }
    None
}

/// A command as the legend sees it: its id and its display name.
pub open spec fn cmd_pair(c: Command) -> (CommandId, Seq<char>) {
    (c.id, c.name@)
}

/// A command list as the legend sees it.
pub open spec fn cmds_view(s: Seq<Command>) -> Seq<(CommandId, Seq<char>)> {
    s.map_values(|c: Command| cmd_pair(c))
}

/// One chip of the help bar, where the command has a key bound; an
/// unbound command contributes nothing.
pub open spec fn spec_legend_entry(p: (CommandId, Seq<char>)) -> Option<Seq<char>> {
    match spec_key_for(p.0) {
        Some(k) => Some("["@ + spec_key_string(k) + "] "@ + p.1),
        None => None,
    }
}

/// The chips of the help bar, in command order.
pub open spec fn spec_legend_items(cs: Seq<(CommandId, Seq<char>)>) -> Seq<Seq<char>>
    decreases cs.len(),
{
    if cs.len() == 0 {
        Seq::empty()
    } else {
        spec_legend_items(cs.drop_last()) + (match spec_legend_entry(cs.last()) {
            Some(e) => seq![e],
            None => Seq::<Seq<char>>::empty(),
        })
    }
}

/// The chips stitched together with two spaces between every two.
pub open spec fn spec_joined(items: Seq<Seq<char>>) -> Seq<char>
    decreases items.len(),
{
    if items.len() == 0 {
        Seq::empty()
    } else if items.len() == 1 {
        items[0]
    } else {
        spec_joined(items.drop_last()) + "  "@ + items.last()
    }
}

/// The whole help bar line: the stitched chips with one space of
/// padding on either side.
pub open spec fn spec_legend_string(cs: Seq<(CommandId, Seq<char>)>) -> Seq<char> {
    seq![' '] + spec_joined(spec_legend_items(cs)) + seq![' ']
}

impl Legend {
    pub fn new() -> (r: Self)
        ensures
            r.command_bindings_string@ == spec_legend_string(Seq::empty()),
    {
        let mut s = String::from_str(" ");
        s.append(" ");
        proof {
            reveal_strlit(" ");
            assert(s@ =~= spec_legend_string(Seq::empty()));
        }
        Legend { command_bindings_string: s }
    }

    /// Rebuilds the help bar line for this command list, as
    /// `spec_legend_string` says.
    pub fn update_command_bindings(&mut self, commands: Vec<Command>)
        ensures
            final(self).command_bindings_string@ == spec_legend_string(cmds_view(commands@)),
    {
        let ghost cv = cmds_view(commands@);
        let n = commands.len();
        let mut joined = String::new();
        let mut any = false;
        proof {
            assert(cv.take(0) =~= Seq::<(CommandId, Seq<char>)>::empty());
            assert(joined@ =~= spec_joined(spec_legend_items(cv.take(0))));
        }
        let mut i: usize = 0;
        while i < n
            invariant
                n == commands@.len(),
                cv == cmds_view(commands@),
                i <= n,
                any == (spec_legend_items(cv.take(i as int)).len() > 0),
                joined@ == spec_joined(spec_legend_items(cv.take(i as int))),
            decreases n - i,
        {
            let c = commands[i];
            proof {
                assert(cv.take(i + 1).drop_last() =~= cv.take(i as int));
                assert(cv.take(i + 1).last() == cv[i as int]);
                assert(cv[i as int] == cmd_pair(commands@[i as int]));
            }
            match binding_key_for(c.id) {
                Some(k) => {
                    if any {
                        joined.append("  ");
                    }
                    joined.append("[");
                    let key_str = keycode_to_string(k);
                    joined.append(key_str.as_str());
                    joined.append("] ");
                    joined.append(c.name);
                    any = true;
                    proof {
                        let items = spec_legend_items(cv.take(i as int));
                        let e = "["@ + spec_key_string(k) + "] "@ + cv[i as int].1;
                        assert(spec_legend_entry(cv[i as int]) == Some(e));
                        assert(spec_legend_items(cv.take(i + 1)) =~= items.push(e));
                        assert(items.push(e).drop_last() =~= items);
                        assert(joined@ =~= spec_joined(spec_legend_items(cv.take(i + 1))));
                    }
                },
                None => {
                    proof {
                        assert(spec_legend_items(cv.take(i + 1)) =~= spec_legend_items(
                            cv.take(i as int),
                        ));
                    }
                },
            }
            i = i + 1;
        }
        proof {
            assert(cv.take(n as int) =~= cv);
        }
        let mut line = String::from_str(" ");
        line.append(joined.as_str());
        line.append(" ");
        proof {
            reveal_strlit(" ");
            assert(line@ =~= spec_legend_string(cv));
        }
        self.command_bindings_string = line;
    }
}

/// One step of the help bar's marquee, taken by the renderer when the
/// line is wider than its area and enough time has passed: the scroll
/// position walks right to the line's end, turns, walks back to zero,
/// and turns again.
pub open spec fn spec_scroll_step(
    dir: bool,
    scroll_pos: u16,
    legend_width: u16,
    area_width: u16,
) -> (bool, u16) {
    if !dir {
        if scroll_pos + area_width < legend_width {
            (false, (scroll_pos + 1) as u16)
        } else {
            (true, (scroll_pos - 1) as u16)
        }
    } else {
        if scroll_pos == 0 {
            (false, (scroll_pos + 1) as u16)
        } else {
            (true, (scroll_pos - 1) as u16)
        }
    }
}

/// One marquee step, as `spec_scroll_step` says; the renderer keeps the
/// clock and resets the position itself when the line fits its area.
pub fn legend_scroll_step(dir: bool, scroll_pos: u16, legend_width: u16, area_width: u16) -> (r: (
    bool,
    u16,
))
    requires
        area_width < legend_width,
        scroll_pos < legend_width,
    ensures
        r == spec_scroll_step(dir, scroll_pos, legend_width, area_width),
{
    if !dir {
        if (scroll_pos as u32) + (area_width as u32) < (legend_width as u32) {
            (false, scroll_pos + 1)
        } else {
            (true, scroll_pos - 1)
        }
    } else {
        if scroll_pos == 0 {
            (false, scroll_pos + 1)
        } else {
            (true, scroll_pos - 1)
        }
    }
}

} // verus!
