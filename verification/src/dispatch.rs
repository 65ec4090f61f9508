//! The decision layer: one linear pass from raw fields to what the
//! process must do next. The caller performs the I/O a directive asks
//! for (print and exit, or play a sound and report back); every
//! decision is taken here, under contract.

use vstd::prelude::*;
use crate::errors::{exit_code_spec, AgentPingError, ErrorV};
use crate::output::{
    error_json, example_json, greeting, human_dry_run, human_error, human_list, human_played,
    list_json, now_rfc3339, ping_json, render_error_json, render_example_json, render_greeting,
    render_human_dry_run, render_human_error, render_human_list, render_human_played,
    render_list_json, render_ping_json, OutputFormat,
};
use crate::request::{validate, validate_spec, AgentPingArgs, ArgsV, Request, RequestV};

verus! {

/// What the process must do next: print a result to standard output,
/// print an error to standard error, or play a validated request and
/// then report the outcome. The exit code accompanies the text.
pub enum Directive {
    Print { text: String, exit: u8 },
    PrintError { text: String, exit: u8 },
    Play { request: Request },
}

/// The mathematical shape of a directive.
pub enum DirectiveV {
    Print { text: Seq<char>, exit: int },
    PrintError { text: Seq<char>, exit: int },
    Play { request: RequestV },
}

impl View for Directive {
    type V = DirectiveV;

    open spec fn view(&self) -> DirectiveV {
        match self {
            Directive::Print { text, exit } => DirectiveV::Print {
                text: text@,
                exit: *exit as int,
            },
            Directive::PrintError { text, exit } => DirectiveV::PrintError {
                text: text@,
                exit: *exit as int,
            },
            Directive::Play { request } => DirectiveV::Play { request: request@ },
        }
    }
}

/// What `agent-ping` does for given fields, format and timestamp:
/// `--list` prints the presets; a validation failure prints the error
/// with its exit code; `--dry-run` prints the report without playing;
/// otherwise the validated request is to be played.
pub open spec fn step_spec(
    format: OutputFormat,
    a: ArgsV,
    file_exists: bool,
    ts: Seq<char>,
) -> DirectiveV {
    if a.list {
        DirectiveV::Print {
            text: match format {
                OutputFormat::Json => list_json(ts),
                OutputFormat::Human => human_list(),
            },
            exit: 0,
        }
    } else {
        match validate_spec(a, file_exists) {
            Err(e) => DirectiveV::PrintError {
                text: match format {
                    OutputFormat::Json => error_json(e, ts),
                    OutputFormat::Human => human_error(e),
                },
                exit: exit_code_spec(e),
            },
            Ok(req) => {
                if a.dry_run {
                    DirectiveV::Print {
                        text: match format {
                            OutputFormat::Json => ping_json(req, false, ts),
                            OutputFormat::Human => human_dry_run(req),
                        },
                        exit: 0,
                    }
                } else {
                    DirectiveV::Play { request: req }
                }
            },
        }
    }
}

/// Runs one `agent-ping` step. The timestamp inside a JSON envelope is
/// read from the clock, so the contract holds for some timestamp.
pub fn agent_ping_step(format: OutputFormat, args: AgentPingArgs, file_exists: bool) -> (d:
    Directive)
    ensures
        exists|ts: Seq<char>| d@ == step_spec(format, args@, file_exists, ts),
{
    let ghost a = args@;
    if args.list {
        match format {
            OutputFormat::Json => {
                let ts = now_rfc3339();
                let d = Directive::Print { text: render_list_json(ts.as_str()), exit: 0 };
                proof {
                    assert(d@ == step_spec(format, a, file_exists, ts@));
                }
                return d;
            },
            OutputFormat::Human => {
                let d = Directive::Print { text: render_human_list(), exit: 0 };
                proof {
                    assert(d@ == step_spec(format, a, file_exists, Seq::empty()));
                }
                return d;
            },
        }
    }
    let dry_run = args.dry_run;
    match validate(args, file_exists) {
        Err(e) => {
            match format {
                OutputFormat::Json => {
                    let ts = now_rfc3339();
                    let text = render_error_json(&e, ts.as_str());
                    let exit = e.exit_code();
                    let d = Directive::PrintError { text, exit };
                    proof {
                        assert(d@ == step_spec(format, a, file_exists, ts@));
                    }
                    d
                },
                OutputFormat::Human => {
                    let text = render_human_error(&e);
                    let exit = e.exit_code();
                    let d = Directive::PrintError { text, exit };
                    proof {
                        assert(d@ == step_spec(format, a, file_exists, Seq::empty()));
                    }
                    d
                },
            }
        },
        Ok(req) => {
            if dry_run {
                match format {
                    OutputFormat::Json => {
                        let ts = now_rfc3339();
                        let text = render_ping_json(&req, false, ts.as_str());
                        let d = Directive::Print { text, exit: 0 };
                        proof {
                            assert(d@ == step_spec(format, a, file_exists, ts@));
                        }
                        d
                    },
                    OutputFormat::Human => {
                        let text = render_human_dry_run(&req);
                        let d = Directive::Print { text, exit: 0 };
                        proof {
                            assert(d@ == step_spec(format, a, file_exists, Seq::empty()));
                        }
                        d
                    },
                }
            } else {
                let d = Directive::Play { request: req };
                proof {
                    assert(d@ == step_spec(format, a, file_exists, Seq::empty()));
                }
                d
            }
        },
    }
}

/// What is printed once a play attempt has come back: a success
/// report, or the play error with its exit code.
pub open spec fn report_spec(
    format: OutputFormat,
    req: RequestV,
    outcome: Result<(), ErrorV>,
    ts: Seq<char>,
) -> DirectiveV {
    match outcome {
        Ok(_) => DirectiveV::Print {
            text: match format {
                OutputFormat::Json => ping_json(req, true, ts),
                OutputFormat::Human => human_played(req),
            },
            exit: 0,
        },
        Err(e) => DirectiveV::PrintError {
            text: match format {
                OutputFormat::Json => error_json(e, ts),
                OutputFormat::Human => human_error(e),
            },
            exit: exit_code_spec(e),
        },
    }
}

/// The view of a play outcome.
pub open spec fn outcome_view(outcome: Result<(), AgentPingError>) -> Result<(), ErrorV> {
    match outcome {
        Ok(_) => Ok(()),
        Err(e) => Err(e@),
    }
}

/// Turns the outcome of a play attempt into the final directive.
pub fn report_play(format: OutputFormat, req: &Request, outcome: Result<(), AgentPingError>) -> (d:
    Directive)
    ensures
        exists|ts: Seq<char>| d@ == report_spec(format, req@, outcome_view(outcome), ts),
{
    let ghost oc: Result<(), ErrorV> = match outcome {
        Ok(_) => Ok(()),
        Err(ref e) => Err(e@),
    };
    match outcome {
        Ok(_) => {
            match format {
                OutputFormat::Json => {
                    let ts = now_rfc3339();
                    let d = Directive::Print {
                        text: render_ping_json(req, true, ts.as_str()),
                        exit: 0,
                    };
                    proof {
                        assert(d@ == report_spec(format, req@, oc, ts@));
                    }
                    d
                },
                OutputFormat::Human => {
                    let d = Directive::Print { text: render_human_played(req), exit: 0 };
                    proof {
                        assert(d@ == report_spec(format, req@, oc, Seq::empty()));
                    }
                    d
                },
            }
        },
        Err(e) => {
            match format {
                OutputFormat::Json => {
                    let ts = now_rfc3339();
                    let text = render_error_json(&e, ts.as_str());
                    let exit = e.exit_code();
                    let d = Directive::PrintError { text, exit };
                    proof {
                        assert(d@ == report_spec(format, req@, oc, ts@));
                    }
                    d
                },
                OutputFormat::Human => {
                    let text = render_human_error(&e);
                    let exit = e.exit_code();
                    let d = Directive::PrintError { text, exit };
                    proof {
                        assert(d@ == report_spec(format, req@, oc, Seq::empty()));
                    }
                    d
                },
            }
        },
    }
}

/// What the example command prints: a greeting to the given name, or
/// to "World".
pub open spec fn example_spec(format: OutputFormat, name: Option<Seq<char>>, ts: Seq<char>) -> DirectiveV {
    let n = match name {
        Some(n) => n,
        None => "World"@,
    };
    DirectiveV::Print {
        text: match format {
            OutputFormat::Json => example_json(n, ts),
            OutputFormat::Human => greeting(n),
        },
        exit: 0,
    }
}

/// The view of an optional string.
pub open spec fn opt_name_view(name: Option<String>) -> Option<Seq<char>> {
    match name {
        Some(n) => Some(n@),
        None => None,
    }
}

/// Runs the example command.
pub fn example_step(format: OutputFormat, name: Option<String>) -> (d: Directive)
    ensures
        exists|ts: Seq<char>| d@ == example_spec(format, opt_name_view(name), ts),
{
    let ghost nv: Option<Seq<char>> = match name {
        Some(ref n) => Some(n@),
        None => None,
    };
    let n: String = match name {
        Some(n) => n,
        None => "World".to_owned(),
    };
    match format {
        OutputFormat::Json => {
            let ts = now_rfc3339();
            let d = Directive::Print {
                text: render_example_json(n.as_str(), ts.as_str()),
                exit: 0,
            };
            proof {
                assert(d@ == example_spec(format, nv, ts@));
            }
            d
        },
        OutputFormat::Human => {
            let d = Directive::Print { text: render_greeting(n.as_str()), exit: 0 };
            proof {
                assert(d@ == example_spec(format, nv, Seq::empty()));
            }
            d
        },
    }
}

} // verus!
