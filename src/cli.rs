//! Field overrides given at startup.
use vstd::prelude::*;
use crate::editor::{field_at, field_at_index, field_index, FieldId, FIELD_COUNT};
use crate::text::{same_text, strip_prefix_of};

verus! {

/// A sparse set of raw values, one optional value per field.
pub struct CliOverrides {
    pub origin: Option<String>,
    pub message: Option<String>,
    pub submessage: Option<String>,
    pub theme_mode: Option<String>,
    pub accent: Option<String>,
    pub primary: Option<String>,
    pub secondary: Option<String>,
    pub tertiary: Option<String>,
    pub background1: Option<String>,
    pub background2: Option<String>,
    pub background3: Option<String>,
    pub hero1: Option<String>,
    pub hero2: Option<String>,
    pub source_will_update: Option<String>,
}

pub open spec fn text_of(o: Option<String>) -> Option<Seq<char>> {
    match o {
        Some(s) => Some(s@),
        None => None,
    }
}

/// The raw value given for field `f`, if any.
pub open spec fn override_text(ov: CliOverrides, f: FieldId) -> Option<Seq<char>> {
    text_of(
        match f {
            FieldId::Origin => ov.origin,
            FieldId::Message => ov.message,
            FieldId::Submessage => ov.submessage,
            FieldId::ThemeMode => ov.theme_mode,
            FieldId::Accent => ov.accent,
            FieldId::Primary => ov.primary,
            FieldId::Secondary => ov.secondary,
            FieldId::Tertiary => ov.tertiary,
            FieldId::Background1 => ov.background1,
            FieldId::Background2 => ov.background2,
            FieldId::Background3 => ov.background3,
            FieldId::Hero1 => ov.hero1,
            FieldId::Hero2 => ov.hero2,
            FieldId::SourceWillUpdate => ov.source_will_update,
        },
    )
}

impl Default for CliOverrides {
    fn default() -> (r: CliOverrides)
        ensures
            forall|f: FieldId| override_text(r, f) is None,
    {
        CliOverrides {
            origin: None,
            message: None,
            submessage: None,
            theme_mode: None,
            accent: None,
            primary: None,
            secondary: None,
            tertiary: None,
            background1: None,
            background2: None,
            background3: None,
            hero1: None,
            hero2: None,
            source_will_update: None,
        }
    }
}

impl CliOverrides {
    /// The raw value given for a field, if any.
    pub fn value_for(&self, field: FieldId) -> (r: Option<String>)
        ensures
            text_of(r) == override_text(*self, field),
    {
        let v = match field {
            FieldId::Origin => &self.origin,
            FieldId::Message => &self.message,
            FieldId::Submessage => &self.submessage,
            FieldId::ThemeMode => &self.theme_mode,
            FieldId::Accent => &self.accent,
            FieldId::Primary => &self.primary,
            FieldId::Secondary => &self.secondary,
            FieldId::Tertiary => &self.tertiary,
            FieldId::Background1 => &self.background1,
            FieldId::Background2 => &self.background2,
            FieldId::Background3 => &self.background3,
            FieldId::Hero1 => &self.hero1,
            FieldId::Hero2 => &self.hero2,
            FieldId::SourceWillUpdate => &self.source_will_update,
        };
        match v {
            Some(s) => Some(s.clone()),
            None => None,
        }
    }
}

impl CliOverrides {
    /// Gives field `field` the raw value `value`.
    pub fn set_value(&mut self, field: FieldId, value: String)
        ensures
            override_text(*final(self), field) == Some(value@),
            forall|f: FieldId| f != field ==> override_text(*final(self), f) == override_text(*old(self), f),
    {
        match field {
            FieldId::Origin => self.origin = Some(value),
            FieldId::Message => self.message = Some(value),
            FieldId::Submessage => self.submessage = Some(value),
            FieldId::ThemeMode => self.theme_mode = Some(value),
            FieldId::Accent => self.accent = Some(value),
            FieldId::Primary => self.primary = Some(value),
            FieldId::Secondary => self.secondary = Some(value),
            FieldId::Tertiary => self.tertiary = Some(value),
            FieldId::Background1 => self.background1 = Some(value),
            FieldId::Background2 => self.background2 = Some(value),
            FieldId::Background3 => self.background3 = Some(value),
            FieldId::Hero1 => self.hero1 = Some(value),
            FieldId::Hero2 => self.hero2 = Some(value),
            FieldId::SourceWillUpdate => self.source_will_update = Some(value),
        }
    }
}

#[derive(Debug, Clone, Copy, PartialEq, Eq, Structural)]
pub enum OutputMode {
    Tui,
    Oneline,
    Json,
}

pub struct CliArgs {
    pub config_path: Option<String>,
    pub show_help: bool,
    pub overrides: CliOverrides,
    pub output_mode: OutputMode,
}

/// The state of a parse: the path seen so far, the help request, the raw value
/// given for each field (by position in the field order) and the output mode.
pub struct CliState {
    pub config_path: Option<Seq<char>>,
    pub show_help: bool,
    pub overrides: Seq<Option<Seq<char>>>,
    pub output_mode: OutputMode,
}

/// The option that overrides field `f`.
pub open spec fn flag_of(f: FieldId) -> Seq<char> {
    match f {
        FieldId::Origin => "--origin"@,
        FieldId::Message => "--message"@,
        FieldId::Submessage => "--submessage"@,
        FieldId::ThemeMode => "--mode"@,
        FieldId::Accent => "--accent"@,
        FieldId::Primary => "--primary"@,
        FieldId::Secondary => "--secondary"@,
        FieldId::Tertiary => "--tertiary"@,
        FieldId::Background1 => "--background1"@,
        FieldId::Background2 => "--background2"@,
        FieldId::Background3 => "--background3"@,
        FieldId::Hero1 => "--hero1"@,
        FieldId::Hero2 => "--hero2"@,
        FieldId::SourceWillUpdate => "--source-will-update"@,
    }
}

/// The value that the argument at `i` gives to option `flag`, and whether it
/// takes the following argument: `flag VALUE` or `flag=VALUE`. A `flag` with no
/// argument after it gives nothing.
pub open spec fn flag_value(args: Seq<Seq<char>>, i: int, flag: Seq<char>) -> Option<(Seq<char>, bool)> {
    let a = args[i];
    if a == flag {
        if i + 1 < args.len() {
            Some((args[i + 1], true))
        } else {
            None
        }
    } else if (flag + "="@).is_prefix_of(a) {
        Some((a.subrange(flag.len() as int + 1, a.len() as int), false))
    } else {
        None
    }
}

/// The first field, at position `k` of the field order or later, whose option
/// the argument at `i` gives a value.
pub open spec fn first_override(args: Seq<Seq<char>>, i: int, k: int) -> Option<(int, Seq<char>, bool)>
    decreases FIELD_COUNT - k,
{
    if k >= FIELD_COUNT || k < 0 {
        None
    } else {
        match flag_value(args, i, flag_of(field_at(k))) {
            Some((v, takes_next)) => Some((k, v, takes_next)),
            None => first_override(args, i, k + 1),
        }
    }
}

/// The parse of the arguments from position `i` on, from state `st`.
/// `--config-file` ends the parse; the first argument that is no option and
/// comes before any other path is the path.
pub open spec fn parse_from(args: Seq<Seq<char>>, i: int, st: CliState) -> CliState
    decreases args.len() - i,
{
    if i < 0 || i >= args.len() {
        st
    } else {
        let a = args[i];
        if a == "--help"@ || a == "-h"@ {
            parse_from(args, i + 1, CliState { show_help: true, ..st })
        } else if a == "--oneline"@ {
            parse_from(args, i + 1, CliState { output_mode: OutputMode::Oneline, ..st })
        } else if a == "--json"@ {
            parse_from(args, i + 1, CliState { output_mode: OutputMode::Json, ..st })
        } else if flag_value(args, i, "--config-file"@) is Some {
            let (path, _) = flag_value(args, i, "--config-file"@)->0;
            CliState { config_path: Some(path), ..st }
        } else if first_override(args, i, 0) is Some {
            let (k, v, takes_next) = first_override(args, i, 0)->0;
            parse_from(
                args,
                if takes_next && i + 1 < args.len() { i + 2 } else { i + 1 },
                CliState { overrides: st.overrides.update(k, Some(v)), ..st },
            )
        } else if st.config_path is None && !"-"@.is_prefix_of(a) {
            parse_from(args, i + 1, CliState { config_path: Some(a), ..st })
        } else {
            parse_from(args, i + 1, st)
        }
    }
}

/// The state before any argument.
pub open spec fn initial_cli_state() -> CliState {
    CliState {
        config_path: None,
        show_help: false,
        overrides: Seq::new(FIELD_COUNT as nat, |k: int| None),
        output_mode: OutputMode::Tui,
    }
}

pub open spec fn args_texts(args: Seq<String>) -> Seq<Seq<char>> {
    args.map_values(|s: String| s@)
}

/// The raw values of a set of overrides, by position in the field order.
pub open spec fn override_texts(ov: CliOverrides) -> Seq<Option<Seq<char>>> {
    Seq::new(FIELD_COUNT as nat, |k: int| override_text(ov, field_at(k)))
}

pub open spec fn cli_state_of(
    config_path: Option<String>,
    show_help: bool,
    ov: CliOverrides,
    output_mode: OutputMode,
) -> CliState {
    CliState { config_path: text_of(config_path), show_help, overrides: override_texts(ov), output_mode }
}

fn flag_for(field: FieldId) -> (r: &'static str)
    ensures
        r@ == flag_of(field),
{
    match field {
        FieldId::Origin => "--origin",
        FieldId::Message => "--message",
        FieldId::Submessage => "--submessage",
        FieldId::ThemeMode => "--mode",
        FieldId::Accent => "--accent",
        FieldId::Primary => "--primary",
        FieldId::Secondary => "--secondary",
        FieldId::Tertiary => "--tertiary",
        FieldId::Background1 => "--background1",
        FieldId::Background2 => "--background2",
        FieldId::Background3 => "--background3",
        FieldId::Hero1 => "--hero1",
        FieldId::Hero2 => "--hero2",
        FieldId::SourceWillUpdate => "--source-will-update",
    }
}

/// The value that argument `i` gives to option `flag`, and whether it took the
/// following argument.
fn take_value(args: &Vec<String>, i: usize, flag: &str) -> (r: Option<(String, bool)>)
    requires
        i < args@.len(),
    ensures
        match r {
            Some((v, t)) => flag_value(args_texts(args@), i as int, flag@) == Some((v@, t)) && (t
                ==> i + 1 < args@.len()),
            None => flag_value(args_texts(args@), i as int, flag@) is None,
        },
{
    let arg = args[i].as_str();
    assert(args_texts(args@)[i as int] == arg@);
    if same_text(arg, flag) {
        if i < args.len() - 1 {
            assert(args_texts(args@)[i + 1] == args@[i + 1]@);
            return Some((args[i + 1].clone(), true));
        }
        return None;
    }
    proof {
        reveal_strlit("=");
    }
    let mut prefix = String::from_str(flag);
    prefix.append("=");
    match strip_prefix_of(arg, prefix.as_str()) {
        Some(rest) => Some((String::from_str(rest), false)),
        None => None,
    }
}

/// The first field whose option argument `i` gives a value, with that value and
/// whether it took the following argument.
fn find_override(args: &Vec<String>, i: usize) -> (r: Option<(FieldId, String, bool)>)
    requires
        i < args@.len(),
    ensures
        match r {
            Some((f, v, t)) => first_override(args_texts(args@), i as int, 0) == Some((
                field_index(f),
                v@,
                t,
            )) && (t ==> i + 1 < args@.len()),
            None => first_override(args_texts(args@), i as int, 0) is None,
        },
{
    let ghost a = args_texts(args@);
    let mut k: usize = 0;
    while k < FIELD_COUNT
        invariant
            a == args_texts(args@),
            i < args@.len(),
            k <= FIELD_COUNT,
            first_override(a, i as int, 0) == first_override(a, i as int, k as int),
        decreases FIELD_COUNT - k,
    {
        let field = field_at_index(k);
        if let Some((value, takes_next)) = take_value(args, i, flag_for(field)) {
            assert(first_override(a, i as int, k as int) == Some((k as int, value@, takes_next)));
            assert(field_index(field) == k);
            return Some((field, value, takes_next));
        }
        k = k + 1;
    }
    None
}

/// Reads the command line: `--help`/`-h`, `--oneline`, `--json`, a value for any
/// field as `--option VALUE` or `--option=VALUE`, `--config-file PATH` (which
/// ends the parse), and otherwise the first argument that is no option as the
/// path. Anything else is ignored.
pub fn parse_cli(args: Vec<String>) -> (r: CliArgs)
    ensures
        cli_state_of(r.config_path, r.show_help, r.overrides, r.output_mode) == parse_from(
            args_texts(args@),
            0,
            initial_cli_state(),
        ),
{
    let ghost a = args_texts(args@);
    let mut positional: Option<String> = None;
    let mut show_help = false;
    let mut overrides = CliOverrides::default();
    let mut output_mode = OutputMode::Tui;
    assert(override_texts(overrides) =~= initial_cli_state().overrides);
    let mut i: usize = 0;
    while i < args.len()
        invariant
            a == args_texts(args@),
            i <= args@.len(),
            parse_from(a, i as int, cli_state_of(positional, show_help, overrides, output_mode))
                == parse_from(a, 0, initial_cli_state()),
        decreases args@.len() - i,
    {
        let ghost st = cli_state_of(positional, show_help, overrides, output_mode);
        let arg = args[i].as_str();
        assert(a[i as int] == arg@);
        if same_text(arg, "--help") || same_text(arg, "-h") {
            show_help = true;
            i = i + 1;
            continue;
        }
        if same_text(arg, "--oneline") {
            output_mode = OutputMode::Oneline;
            i = i + 1;
            continue;
        }
        if same_text(arg, "--json") {
            output_mode = OutputMode::Json;
            i = i + 1;
            continue;
        }
        if let Some((value, _)) = take_value(&args, i, "--config-file") {
            return CliArgs { config_path: Some(value), show_help, overrides, output_mode };
        }
        let matched = find_override(&args, i);
        match matched {
            Some((field, value, takes_next)) => {
                let ghost v = value@;
                overrides.set_value(field, value);
                proof {
                    assert(override_texts(overrides) =~= st.overrides.update(
                        field_index(field),
                        Some(v),
                    ));
                }
                i = if takes_next {
                    i + 2
                } else {
                    i + 1
                };
            },
            None => {
                if positional.is_none() && strip_prefix_of(arg, "-").is_none() {
                    positional = Some(args[i].clone());
                }
                i = i + 1;
            },
        }
    }
    CliArgs { config_path: positional, show_help, overrides, output_mode }
}

} // verus!
