//! The pipeline orchestrator: source text through the lexer, the
//! parser and the evaluator, with the three error kinds unified into
//! one reporting surface.
//!
//! The spec function [`run_spec`] composes the three stages'
//! mathematical specifications; [`Rlox::run`] is proved to return
//! exactly its outcome: the canonical text of the value when every
//! stage succeeds, otherwise the failing stage's errors, wrapped with
//! their origin and with lines and messages preserved.

use vstd::prelude::*;
use vstd::string::StringExecFns;
use crate::interpreter::{EvalError, EvalOut, FatalError, Interpreter, RuntimeError, eval_spec};
use crate::parser::{ParseError, Parser, p_parse, perrs_v, wf_toks};
use crate::scanner::{ScanError, Scanner, errs_v, scan_from, toks_v};
use crate::token::{ErrV, TokenType, TokenV, lit_text};

verus! {

/// A pipeline error, discriminated by the stage it came from, so that
/// a caller can branch on origin while printing uniformly.  The fatal
/// class stays distinguishable: the driver turns it into an abort, as
/// an unrecoverable defect, rather than reporting it.
#[derive(Debug)]
pub enum RloxError {
    Scan(ScanError),
    Parse(ParseError),
    Runtime(RuntimeError),
    Fatal(FatalError),
}

/// The mathematical shape of a pipeline error.
pub ghost enum RErrV {
    Scan(ErrV),
    Parse(ErrV),
    Runtime(ErrV),
    Fatal(Seq<char>),
}

impl View for RloxError {
    type V = RErrV;

    open spec fn view(&self) -> RErrV {
        match self {
            RloxError::Scan(e) => RErrV::Scan(e@),
            RloxError::Parse(e) => RErrV::Parse(e@),
            RloxError::Runtime(e) => RErrV::Runtime(e@),
            RloxError::Fatal(e) => RErrV::Fatal(e.message@),
        }
    }
}

/// The views of a sequence of pipeline errors.
pub open spec fn rerrs_v(es: Seq<RloxError>) -> Seq<RErrV> {
    es.map_values(|e: RloxError| e@)
}

/// What a run of the pipeline produces: the text to print, or the
/// failing stage's errors.
pub ghost enum RunOut {
    Out(Seq<char>),
    Errs(Seq<RErrV>),
}

/// The token sequence the lexer hands to the parser: the scanned
/// tokens with the end-of-input token appended.
pub open spec fn scanned_tokens(src: Seq<char>) -> Seq<TokenV> {
    let o = scan_from(src, 0, 1);
    o.toks.push(TokenV { kind: TokenType::EOF, lexeme: Seq::empty(), lit: None, line: o.line })
}

/// The pipeline's outcome on a source text: every lexical error if
/// scanning found any; else every parse error if the parse failed;
/// else the evaluator's single runtime error or fatal defect; else
/// the canonical text of the resulting value.
pub open spec fn run_spec(src: Seq<char>) -> RunOut {
    let o = scan_from(src, 0, 1);
    if o.errs.len() > 0 {
        RunOut::Errs(o.errs.map_values(|e: ErrV| RErrV::Scan(e)))
    } else {
        match p_parse(scanned_tokens(src)) {
            Err(pes) => RunOut::Errs(pes.map_values(|e: ErrV| RErrV::Parse(e))),
            Ok(tree) => match eval_spec(tree) {
                EvalOut::Val(v) => RunOut::Out(lit_text(v)),
                EvalOut::RtErr(e) => RunOut::Errs(seq![RErrV::Runtime(e)]),
                EvalOut::Fatal(m) => RunOut::Errs(seq![RErrV::Fatal(m)]),
            },
        }
    }
}

/// The pipeline: lexer, parser, then evaluator, once each per run, a
/// failing stage keeping the later ones from running.  It holds no
/// state between runs.
pub struct Rlox {
    pub interpreter: Interpreter,
}

impl Rlox {
    /// Builds a pipeline.
    pub fn new() -> (r: Rlox) {
        Rlox { interpreter: Interpreter::new() }
    }

    /// Runs a source string through the pipeline: exactly the outcome
    /// of [`run_spec`] — the canonical text of the resulting value
    /// when scanning, parsing and evaluation all succeed, otherwise
    /// the failing stage's errors with origin, line and message
    /// preserved.
    pub fn run(&mut self, source: &str) -> (r: Result<String, Vec<RloxError>>)
        requires
            source@.len() < usize::MAX,
        ensures
            ({
                match run_spec(source@) {
                    RunOut::Out(t) => r is Ok && r->Ok_0@ == t,
                    RunOut::Errs(es) => r is Err && rerrs_v(r->Err_0@) == es,
                }
            }),
    {
        let ghost src = source@;
        let ghost o = scan_from(src, 0, 1);
        let scanner = Scanner::new(String::from_str(source));
        let tokens = match scanner.scan_tokens() {
            Ok(t) => t,
            Err(errs) => {
                let mut out: Vec<RloxError> = Vec::new();
                let mut idx: usize = 0;
                let n = errs.len();
                while idx < n
                    invariant
                        idx <= n,
                        n == errs@.len(),
                        out@.len() == idx,
                        forall|k: int|
                            0 <= k < idx ==> (#[trigger] out@[k])@ == RErrV::Scan(errs@[k]@),
                    decreases n - idx,
                {
                    let e = ScanError { line: errs[idx].line, message: errs[idx].message.clone() };
                    out.push(RloxError::Scan(e));
                    idx = idx + 1;
                }
                proof {
                    assert(errs_v(errs@) == o.errs);
                    assert(rerrs_v(out@) =~= o.errs.map_values(|e: ErrV| RErrV::Scan(e))) by {
                        assert forall|k: int| 0 <= k < out@.len() implies rerrs_v(out@)[k]
                            == o.errs.map_values(|e: ErrV| RErrV::Scan(e))[k] by {
                            assert(out@[k]@ == RErrV::Scan(errs@[k]@));
                            assert(errs_v(errs@)[k] == errs@[k]@);
                        }
                    }
                }
                return Err(out);
            },
        };
        proof {
            let ts = toks_v(tokens@);
            assert(ts == scanned_tokens(src));
            assert(ts[ts.len() - 1].kind == TokenType::EOF);
            assert(wf_toks(ts));
        }
        let parser = Parser::new(tokens);
        let expr = match parser.parse() {
            Ok(e) => e,
            Err(perrs) => {
                let mut out: Vec<RloxError> = Vec::new();
                let mut idx: usize = 0;
                let n = perrs.len();
                while idx < n
                    invariant
                        idx <= n,
                        n == perrs@.len(),
                        out@.len() == idx,
                        forall|k: int|
                            0 <= k < idx ==> (#[trigger] out@[k])@ == RErrV::Parse(perrs@[k]@),
                    decreases n - idx,
                {
                    let e = ParseError {
                        line: perrs[idx].line,
                        message: perrs[idx].message.clone(),
                    };
                    out.push(RloxError::Parse(e));
                    idx = idx + 1;
                }
                proof {
                    let pes = perrs_v(perrs@);
                    assert(rerrs_v(out@) =~= pes.map_values(|e: ErrV| RErrV::Parse(e))) by {
                        assert forall|k: int| 0 <= k < out@.len() implies rerrs_v(out@)[k]
                            == pes.map_values(|e: ErrV| RErrV::Parse(e))[k] by {
                            assert(out@[k]@ == RErrV::Parse(perrs@[k]@));
                            assert(perrs_v(perrs@)[k] == perrs@[k]@);
                        }
                    }
                }
                return Err(out);
            },
        };
        match self.interpreter.evaluate(&expr) {
            Ok(value) => Ok(self.interpreter.stringify(&value)),
            Err(EvalError::Runtime(re)) => {
                let ghost rev = re@;
                let out = vec![RloxError::Runtime(re)];
                proof {
                    assert(rerrs_v(out@) =~= seq![RErrV::Runtime(rev)]);
                }
                Err(out)
            },
            Err(EvalError::Fatal(fe)) => {
                let ghost msg = fe.message@;
                let out = vec![RloxError::Fatal(fe)];
                proof {
                    assert(rerrs_v(out@) =~= seq![RErrV::Fatal(msg)]);
                }
                Err(out)
            },
        }
    }
}

/// The interactive driver's state: app code reads lines and feeds
/// them through the pipeline it holds.
pub struct Repl {
    pub rlox: Rlox,
}

impl Repl {
    /// Builds the driver state around a pipeline.
    pub fn new(rlox: Rlox) -> (r: Repl) {
        Repl { rlox }
    }
}

} // verus!
