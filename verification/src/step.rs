//! One query attempt and its outcome: the `Step` record and its textual
//! rendering.

use vstd::prelude::*;

use crate::addr::ipv4_str;
use crate::authority::{authority_str, Authority};
use crate::records::{QueryError, RecordData, Response};
use crate::text::{dec_str, push_dec};

verus! {

/// An immutable record of one query attempt: the authority that was asked,
/// the response or the error it ended in, and the elapsed time of the attempt
/// in milliseconds.
#[derive(Debug)]
pub struct Step {
    pub source: Authority,
    pub result: Result<Response, QueryError>,
    pub elapsed: u64,
}

/// The answer shown for a successful step: the address of the first answer
/// record when it is an IPv4 address record, `Unknown` when the first answer
/// is of any other type, and `None` when there is no answer.
pub open spec fn answer_str(res: Response) -> Seq<char> {
    if res.answers@.len() > 0 {
        match res.answers@[0].data {
            RecordData::A(ip) => ipv4_str(ip),
            _ => "Unknown"@,
        }
    } else {
        "None"@
    }
}

/// The rendering of a step. On a response:
/// `source: <elapsed>ms, code: <code>, answers: <n>, authority: <n>, answer: <answer>`;
/// on an error: `source: <description>`.
pub open spec fn step_str(step: Step) -> Seq<char> {
    match step.result {
        Ok(res) => authority_str(step.source) + ": "@ + dec_str(step.elapsed as nat) + "ms, code: "@
            + dec_str(res.code as nat) + ", answers: "@ + dec_str(res.answers@.len())
            + ", authority: "@ + dec_str(res.name_servers@.len()) + ", answer: "@ + answer_str(res),
        Err(e) => authority_str(step.source) + ": "@ + e.message@,
    }
}

impl Step {
    /// Renders this step as text per `step_str`.
    pub fn render(&self) -> (s: String)
        ensures
            s@ == step_str(*self),
    {
        let mut out = self.source.render();
        proof {
            reveal_strlit(": ");
        }
        out.append(": ");
        match &self.result {
            Ok(res) => {
                proof {
                    reveal_strlit("ms, code: ");
                    reveal_strlit(", answers: ");
                    reveal_strlit(", authority: ");
                    reveal_strlit(", answer: ");
                }
                push_dec(&mut out, self.elapsed);
                out.append("ms, code: ");
                push_dec(&mut out, res.code as u64);
                out.append(", answers: ");
                push_dec(&mut out, res.answers.len() as u64);
                out.append(", authority: ");
                push_dec(&mut out, res.name_servers.len() as u64);
                out.append(", answer: ");
                if res.answers.len() > 0 {
                    match &res.answers[0].data {
                        RecordData::A(ip) => {
                            push_dec(&mut out, ip.a as u64);
                            proof {
                                reveal_strlit(".");
                            }
                            out.append(".");
                            push_dec(&mut out, ip.b as u64);
                            out.append(".");
                            push_dec(&mut out, ip.c as u64);
                            out.append(".");
                            push_dec(&mut out, ip.d as u64);
                            proof {
                                assert(out@ =~= step_str(*self));
                            }
                        },
                        _ => {
                            out.append("Unknown");
                            proof {
                                assert(out@ =~= step_str(*self));
                            }
                        },
                    }
                } else {
                    out.append("None");
                    proof {
                        assert(out@ =~= step_str(*self));
                    }
                }
            },
            Err(e) => {
                out.append(e.message.as_str());
                proof {
                    assert(out@ =~= step_str(*self));
                }
            },
        }
        out
    }
}

} // verus!
