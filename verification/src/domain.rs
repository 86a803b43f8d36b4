//! Findings: severities, categories, locations and smells.
use vstd::prelude::*;
use crate::text::str_eq;

verus! {

/// How serious a finding is.
#[derive(Clone, Copy, Debug, PartialEq, Eq, Structural)]
pub enum Severity {
    Info,
    Warning,
    Critical,
}

/// The family a smell belongs to.
#[derive(Clone, Copy, Debug, PartialEq, Eq, Structural)]
pub enum SmellCategory {
    Architecture,
    Design,
    Implementation,
    Concurrency,
    Performance,
    Idiomaticity,
    Unsafe,
}

/// A place in a source file: a file, an inclusive range of 1-based lines and
/// an optional column.
pub struct SourceLocation {
    pub file: String,
    pub line_start: usize,
    pub line_end: usize,
    pub column: Option<usize>,
}

impl SourceLocation {
    pub fn new(file: String, line_start: usize, line_end: usize, column: Option<usize>) -> (r:
        SourceLocation)
        ensures
            r.file@ == file@,
            r.line_start == line_start,
            r.line_end == line_end,
            r.column == column,
    {
        SourceLocation { file, line_start, line_end, column }
    }
}

/// One detected code smell.
pub struct Smell {
    pub category: SmellCategory,
    pub name: String,
    pub severity: Severity,
    pub location: SourceLocation,
    pub message: String,
    pub suggestion: String,
}

/// The abstract content of a `Smell`, with its texts as character sequences.
pub struct SmellView {
    pub category: SmellCategory,
    pub name: Seq<char>,
    pub severity: Severity,
    pub file: Seq<char>,
    pub line_start: usize,
    pub line_end: usize,
    pub column: Option<usize>,
    pub message: Seq<char>,
    pub suggestion: Seq<char>,
}

impl View for Smell {
    type V = SmellView;

    open spec fn view(&self) -> SmellView {
        SmellView {
            category: self.category,
            name: self.name@,
            severity: self.severity,
            file: self.location.file@,
            line_start: self.location.line_start,
            line_end: self.location.line_end,
            column: self.location.column,
            message: self.message@,
            suggestion: self.suggestion@,
        }
    }
}

/// The views of a sequence of smells.
pub open spec fn smell_views(s: Seq<Smell>) -> Seq<SmellView> {
    s.map_values(|x: Smell| x@)
}

/// A finding on the lines `line_start..=line_end` of `file`, with no column.
pub open spec fn finding(
    category: SmellCategory,
    name: Seq<char>,
    severity: Severity,
    file: Seq<char>,
    line_start: usize,
    line_end: usize,
    message: Seq<char>,
    suggestion: Seq<char>,
) -> SmellView {
    SmellView {
        category,
        name,
        severity,
        file,
        line_start,
        line_end,
        column: None,
        message,
        suggestion,
    }
}

impl Smell {
    pub fn new(
        category: SmellCategory,
        name: &str,
        severity: Severity,
        location: SourceLocation,
        message: String,
        suggestion: &str,
    ) -> (r: Smell)
        ensures
            r@ == (SmellView {
                category,
                name: name@,
                severity,
                file: location.file@,
                line_start: location.line_start,
                line_end: location.line_end,
                column: location.column,
                message: message@,
                suggestion: suggestion@,
            }),
    {
        Smell {
            category,
            name: String::from_str(name),
            severity,
            location,
            message,
            suggestion: String::from_str(suggestion),
        }
    }

    /// A smell on the lines `line_start..=line_end` of `file`, with no column.
    pub fn at_lines(
        category: SmellCategory,
        name: &str,
        severity: Severity,
        file: &String,
        line_start: usize,
        line_end: usize,
        message: String,
        suggestion: &str,
    ) -> (r: Smell)
        ensures
            r@ == finding(
                category,
                name@,
                severity,
                file@,
                line_start,
                line_end,
                message@,
                suggestion@,
            ),
    {
        Smell::new(
            category,
            name,
            severity,
            SourceLocation::new(file.clone(), line_start, line_end, None),
            message,
            suggestion,
        )
    }
}

/// The rank of a severity: info below warning below critical.
pub open spec fn severity_rank(s: Severity) -> int {
    match s {
        Severity::Info => 0,
        Severity::Warning => 1,
        Severity::Critical => 2,
    }
}

/// The severity that a command-line name designates.
pub open spec fn severity_named(name: Seq<char>) -> Option<Severity> {
    if name == "info"@ {
        Some(Severity::Info)
    } else if name == "warning"@ {
        Some(Severity::Warning)
    } else if name == "critical"@ {
        Some(Severity::Critical)
    } else {
        None
    }
}

impl Severity {
    /// The severity named `info`, `warning` or `critical`; `None` for any
    /// other name.
    pub fn from_name(name: &str) -> (r: Option<Severity>)
        ensures
            r == severity_named(name@),
    {
        if str_eq(name, "info") {
            Some(Severity::Info)
        } else if str_eq(name, "warning") {
            Some(Severity::Warning)
        } else if str_eq(name, "critical") {
            Some(Severity::Critical)
        } else {
            None
        }
    }

    /// Whether this severity is `min` or more serious.
    pub fn at_least(self, min: Severity) -> (r: bool)
        ensures
            r == (severity_rank(self) >= severity_rank(min)),
    {
        match (self, min) {
            (_, Severity::Info) => true,
            (Severity::Info, _) => false,
            (_, Severity::Warning) => true,
            (Severity::Critical, Severity::Critical) => true,
            _ => false,
        }
    }
}

/// The category that a command-line name designates.
pub open spec fn category_named(name: Seq<char>) -> Option<SmellCategory> {
    if name == "architecture"@ {
        Some(SmellCategory::Architecture)
    } else if name == "design"@ {
        Some(SmellCategory::Design)
    } else if name == "implementation"@ {
        Some(SmellCategory::Implementation)
    } else if name == "concurrency"@ {
        Some(SmellCategory::Concurrency)
    } else if name == "performance"@ {
        Some(SmellCategory::Performance)
    } else if name == "idiomaticity"@ {
        Some(SmellCategory::Idiomaticity)
    } else if name == "unsafe"@ {
        Some(SmellCategory::Unsafe)
    } else {
        None
    }
}

impl SmellCategory {
    /// The category with the given lower-case name; `None` for any other name.
    pub fn from_name(name: &str) -> (r: Option<SmellCategory>)
        ensures
            r == category_named(name@),
    {
        if str_eq(name, "architecture") {
            Some(SmellCategory::Architecture)
        } else if str_eq(name, "design") {
            Some(SmellCategory::Design)
        } else if str_eq(name, "implementation") {
            Some(SmellCategory::Implementation)
        } else if str_eq(name, "concurrency") {
            Some(SmellCategory::Concurrency)
        } else if str_eq(name, "performance") {
            Some(SmellCategory::Performance)
        } else if str_eq(name, "idiomaticity") {
            Some(SmellCategory::Idiomaticity)
        } else if str_eq(name, "unsafe") {
            Some(SmellCategory::Unsafe)
        } else {
            None
        }
    }
}

/// A smell is reported when it is at least as serious as `min` and, when a
/// category is asked for, belongs to it.
pub open spec fn reported(s: SmellView, min: Severity, category: Option<SmellCategory>) -> bool {
    severity_rank(s.severity) >= severity_rank(min) && match category {
        Some(c) => s.category == c,
        None => true,
    }
}

/// Some smell of `s` is critical.
pub open spec fn any_critical(s: Seq<SmellView>) -> bool {
    exists|i: int| 0 <= i < s.len() && s[i].severity == Severity::Critical
}

impl Smell {
    /// Whether this smell passes the severity floor and the category filter.
    pub fn is_reported(&self, min: Severity, category: Option<SmellCategory>) -> (r: bool)
        ensures
            r == reported(self@, min, category),
    {
        self.severity.at_least(min) && match category {
            Some(c) => self.category == c,
            None => true,
        }
    }
}

/// Whether any of the smells is critical: a run that finds one fails.
pub fn has_critical(smells: &Vec<Smell>) -> (r: bool)
    ensures
        r == any_critical(smell_views(smells@)),
{
    let mut i: usize = 0;
    while i < smells.len()
        invariant
            i <= smells.len(),
            forall|k: int| 0 <= k < i ==> smells@[k].severity != Severity::Critical,
        decreases smells.len() - i,
    {
        if smells[i].severity == Severity::Critical {
            assert(smell_views(smells@)[i as int].severity == Severity::Critical);
            return true;
        }
        i += 1;
    }
    assert forall|k: int| 0 <= k < smell_views(smells@).len() implies smell_views(smells@)[k].severity
        != Severity::Critical by {
        assert(smells@[k].severity != Severity::Critical);
    }
    false
}

} // verus!
