//! The debug reporter's data: what the messenger subscribes to, how a
//! received diagnostic record is rendered for the log stream, and the
//! text of the fatal startup errors. A record may arrive with no
//! message-id name and no body; both are rendered as the empty string,
//! never dereferenced.

use vstd::prelude::*;
use vstd::string::StringExecFns;

verus! {

/// Severity classes the messenger subscribes to.
#[derive(PartialEq, Eq, Structural, Clone, Copy, Debug)]
pub enum Severity {
    Error,
    Warning,
    Info,
}

/// Message categories the messenger subscribes to.
#[derive(PartialEq, Eq, Structural, Clone, Copy, Debug)]
pub enum Category {
    General,
    Validation,
    Performance,
}

/// The subscription the debug messenger is registered with.
pub struct DebugMessengerConfig {
    pub severities: Vec<Severity>,
    pub categories: Vec<Category>,
}

/// The fixed subscription: severities error, warning and info, and
/// categories general, validation and performance.
pub fn debug_messenger_config() -> (c: DebugMessengerConfig)
    ensures
        c.severities@ == seq![Severity::Error, Severity::Warning, Severity::Info],
        c.categories@ == seq![Category::General, Category::Validation, Category::Performance],
{
    let mut severities: Vec<Severity> = Vec::new();
    severities.push(Severity::Error);
    severities.push(Severity::Warning);
    severities.push(Severity::Info);
    let mut categories: Vec<Category> = Vec::new();
    categories.push(Category::General);
    categories.push(Category::Validation);
    categories.push(Category::Performance);
    proof {
        assert(severities@ =~= seq![Severity::Error, Severity::Warning, Severity::Info]);
        assert(categories@ =~= seq![
            Category::General,
            Category::Validation,
            Category::Performance,
        ]);
    }
    DebugMessengerConfig { severities, categories }
}

pub open spec fn severity_label(s: Severity) -> Seq<char> {
    match s {
        Severity::Error => "ERROR"@,
        Severity::Warning => "WARNING"@,
        Severity::Info => "INFO"@,
    }
}

pub open spec fn category_label(c: Category) -> Seq<char> {
    match c {
        Category::General => "GENERAL"@,
        Category::Validation => "VALIDATION"@,
        Category::Performance => "PERFORMANCE"@,
    }
}

/// The text of an optional field: absent means empty, never a crash.
pub open spec fn opt_text(o: Option<&str>) -> Seq<char> {
    match o {
        Some(t) => t@,
        None => Seq::<char>::empty(),
    }
}

pub open spec fn digit_char(d: nat) -> char {
    if d == 0 {
        '0'
    } else if d == 1 {
        '1'
    } else if d == 2 {
        '2'
    } else if d == 3 {
        '3'
    } else if d == 4 {
        '4'
    } else if d == 5 {
        '5'
    } else if d == 6 {
        '6'
    } else if d == 7 {
        '7'
    } else if d == 8 {
        '8'
    } else {
        '9'
    }
}

/// The decimal digits of a non-negative number, most significant first.
pub open spec fn decimal_digits(n: nat) -> Seq<char>
    decreases n,
{
    if n < 10 {
        seq![digit_char(n)]
    } else {
        decimal_digits(n / 10).push(digit_char(n % 10))
    }
}

/// The decimal rendering of an integer, with a leading minus sign when
/// it is negative.
pub open spec fn decimal_rep(n: int) -> Seq<char> {
    if n < 0 {
        seq!['-'] + decimal_digits((-n) as nat)
    } else {
        decimal_digits(n as nat)
    }
}

/// How a diagnostic record is rendered for the log stream.
pub open spec fn message_text(
    severity: Severity,
    category: Category,
    id_name: Seq<char>,
    id_number: int,
    body: Seq<char>,
) -> Seq<char> {
    severity_label(severity) + ":\n"@ + category_label(category) + " ["@ + id_name + " ("@
        + decimal_rep(id_number) + ")] : "@ + body + "\n"@
}

fn severity_text(s: Severity) -> (r: &'static str)
    ensures
        r@ == severity_label(s),
{
    match s {
        Severity::Error => "ERROR",
        Severity::Warning => "WARNING",
        Severity::Info => "INFO",
    }
}

fn category_text(c: Category) -> (r: &'static str)
    ensures
        r@ == category_label(c),
{
    match c {
        Category::General => "GENERAL",
        Category::Validation => "VALIDATION",
        Category::Performance => "PERFORMANCE",
    }
}

fn text_or_empty<'a>(o: Option<&'a str>) -> (r: &'a str)
    ensures
        r@ == opt_text(o),
{
    match o {
        Some(t) => t,
        None => {
            let empty = "";
            proof {
                reveal_strlit("");
                assert(empty@ =~= Seq::<char>::empty());
            }
            empty
        },
    }
}

fn digit_str(d: u32) -> (s: &'static str)
    requires
        d < 10,
    ensures
        s@ == seq![digit_char(d as nat)],
{
    if d == 0 {
        proof {
            reveal_strlit("0");
            assert("0"@ =~= seq![digit_char(0)]);
        }
        "0"
    } else if d == 1 {
        proof {
            reveal_strlit("1");
            assert("1"@ =~= seq![digit_char(1)]);
        }
        "1"
    } else if d == 2 {
        proof {
            reveal_strlit("2");
            assert("2"@ =~= seq![digit_char(2)]);
        }
        "2"
    } else if d == 3 {
        proof {
            reveal_strlit("3");
            assert("3"@ =~= seq![digit_char(3)]);
        }
        "3"
    } else if d == 4 {
        proof {
            reveal_strlit("4");
            assert("4"@ =~= seq![digit_char(4)]);
        }
        "4"
    } else if d == 5 {
        proof {
            reveal_strlit("5");
            assert("5"@ =~= seq![digit_char(5)]);
        }
        "5"
    } else if d == 6 {
        proof {
            reveal_strlit("6");
            assert("6"@ =~= seq![digit_char(6)]);
        }
        "6"
    } else if d == 7 {
        proof {
            reveal_strlit("7");
            assert("7"@ =~= seq![digit_char(7)]);
        }
        "7"
    } else if d == 8 {
        proof {
            reveal_strlit("8");
            assert("8"@ =~= seq![digit_char(8)]);
        }
        "8"
    } else {
        proof {
            reveal_strlit("9");
            assert("9"@ =~= seq![digit_char(d as nat)]);
        }
        "9"
    }
}

/// The decimal rendering of a non-negative number.
pub fn u32_decimal(n: u32) -> (s: String)
    ensures
        s@ == decimal_digits(n as nat),
    decreases n,
{
    if n < 10 {
        String::from_str(digit_str(n))
    } else {
        let mut s = u32_decimal(n / 10);
        s.append(digit_str(n % 10));
        proof {
            assert(s@ =~= decimal_digits(n as nat));
        }
        s
    }
}

/// The decimal rendering of a (possibly negative) message id.
pub fn i32_decimal(n: i32) -> (s: String)
    ensures
        s@ == decimal_rep(n as int),
{
    if n >= 0 {
        u32_decimal(n as u32)
    } else {
        let m: u32 = (-(n as i64)) as u32;
        assert(m as nat == (-(n as int)) as nat);
        let mut s = String::from_str("-");
        proof {
            reveal_strlit("-");
            assert(s@ =~= seq!['-']);
        }
        let digits = u32_decimal(m);
        s.append(digits.as_str());
        s
    }
}

/// Render one diagnostic record. An absent message-id name or body is
/// substituted by the empty string.
pub fn format_debug_message(
    severity: Severity,
    category: Category,
    id_name: Option<&str>,
    id_number: i32,
    body: Option<&str>,
) -> (s: String)
    ensures
        s@ == message_text(severity, category, opt_text(id_name), id_number as int, opt_text(body)),
{
    let mut s = String::from_str(severity_text(severity));
    s.append(":\n");
    s.append(category_text(category));
    s.append(" [");
    s.append(text_or_empty(id_name));
    s.append(" (");
    let number = i32_decimal(id_number);
    s.append(number.as_str());
    s.append(")] : ");
    s.append(text_or_empty(body));
    s.append("\n");
    s
}

/// The fatal startup failures, each an unrecoverable precondition of
/// any further work: the process terminates with its diagnostic.
#[derive(PartialEq, Eq, Structural, Clone, Copy, Debug)]
pub enum StartupError {
    /// The windowing toolkit found no supported display backend.
    NoDisplayBackend,
    /// The event loop could not be created.
    EventLoopCreation,
    /// The window could not be created.
    WindowCreation,
    /// The backend rejected the requested instance.
    InstanceCreation,
    /// The backend rejected the debug messenger registration.
    DebugMessengerCreation,
}

pub open spec fn startup_error_text(e: StartupError) -> Seq<char> {
    match e {
        StartupError::NoDisplayBackend => "no supported display backend detected"@,
        StartupError::EventLoopCreation => "failed to create event loop"@,
        StartupError::WindowCreation => "failed to create window"@,
        StartupError::InstanceCreation => "failed to create instance"@,
        StartupError::DebugMessengerCreation => "failed to create debug messenger"@,
    }
}

impl StartupError {
    /// The diagnostic identifying which startup step failed.
    pub fn describe(&self) -> (s: String)
        ensures
            s@ == startup_error_text(*self),
    {
        match self {
            StartupError::NoDisplayBackend => String::from_str(
                "no supported display backend detected",
            ),
            StartupError::EventLoopCreation => String::from_str("failed to create event loop"),
            StartupError::WindowCreation => String::from_str("failed to create window"),
            StartupError::InstanceCreation => String::from_str("failed to create instance"),
            StartupError::DebugMessengerCreation => String::from_str(
                "failed to create debug messenger",
            ),
        }
    }
}

} // verus!
