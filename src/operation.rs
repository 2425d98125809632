use vstd::prelude::*;
use crate::input::{identifier_list, parse_identifier_list};
use crate::pipeline::ReportPipeline;

verus! {

/// The work that the command line asks for.
pub enum Operation {
    /// Report the newest message of each listed channel.
    Report {
        /// The report text; when absent each report draws one from the catalog.
        message: Option<String>,
        /// The channels, when no file is given.
        channels: Vec<String>,
        /// A file that lists the channels, one per line.
        file: Option<String>,
        /// Seconds to wait between two reports.
        timeout: u64,
    },
}

fn copy_strings(v: &Vec<String>) -> (r: Vec<String>)
    ensures
        r@.map_values(|s: String| s@) == v@.map_values(|s: String| s@),
{
    let mut r: Vec<String> = Vec::new();
    let mut i: usize = 0;
    while i < v.len()
        invariant
            i <= v@.len(),
            r@.len() == i,
            forall|j: int| 0 <= j < i ==> #[trigger] r@[j]@ == v@[j]@,
        decreases v.len() - i,
    {
        r.push(v[i].clone());
        i = i + 1;
    }
    assert(r@.map_values(|s: String| s@) =~= v@.map_values(|s: String| s@));
    r
}

impl Operation {
    /// The identifiers to report: the listed file's, given its text, else the channels.
    pub fn identifiers(&self, file_text: Option<&str>) -> (r: Vec<String>)
        ensures
            r@.map_values(|s: String| s@) == match file_text {
                Some(t) => identifier_list(t@),
                None => match self {
                    Operation::Report { channels, .. } => channels@.map_values(|s: String| s@),
                },
            },
    {
        match file_text {
            Some(t) => parse_identifier_list(t),
            None => match self {
                Operation::Report { channels, .. } => copy_strings(channels),
            },
        }
    }

    /// The report text that the operator supplied, if any.
    pub fn message_override(&self) -> (r: &Option<String>)
        ensures
            match self {
                Operation::Report { message, .. } => r == message,
            },
    {
        match self {
            Operation::Report { message, .. } => message,
        }
    }

    /// The run over this operation's identifiers, with its pause between reports.
    pub fn pipeline(&self, file_text: Option<&str>) -> (r: ReportPipeline)
        ensures
            r.wf(),
            r.idle(),
            r@.started == 0,
            r@.outcomes.len() == 0,
            r@.identifiers == match file_text {
                Some(t) => identifier_list(t@),
                None => match self {
                    Operation::Report { channels, .. } => channels@.map_values(|s: String| s@),
                },
            },
            match self {
                Operation::Report { timeout, .. } => r@.delay_secs == *timeout,
            },
    {
        let ids = self.identifiers(file_text);
        match self {
            Operation::Report { timeout, .. } => ReportPipeline::new(ids, *timeout),
        }
    }
}

} // verus!
