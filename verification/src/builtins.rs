use vstd::prelude::*;
use vstd::string::StrSliceExecFns;
use vstd::string::StringExecFns;
use crate::command::BuiltinCommand;
use crate::errors::ShellError;

verus! {

/// A decimal digit, by code point.
pub open spec fn is_digit(c: char) -> bool {
    48 <= c as int <= 57
}

/// The value of one decimal digit.
pub open spec fn digit_val(c: char) -> int {
    c as int - 48
}

/// Whether every character of a sequence is a decimal digit.
pub open spec fn all_digits(s: Seq<char>) -> bool {
    forall|i: int| 0 <= i < s.len() ==> is_digit(#[trigger] s[i])
}

/// The value of a digit sequence read in base ten.
pub open spec fn digits_val(s: Seq<char>) -> int
    decreases s.len(),
{
    if s.len() == 0 {
        0
    } else {
        digits_val(s.drop_last()) * 10 + digit_val(s.last())
    }
}

/// The digit part of an integer literal: everything after one optional
/// leading sign.
pub open spec fn int_body(s: Seq<char>) -> Seq<char> {
    if s.len() > 0 && (s.first() == '+' || s.first() == '-') {
        s.drop_first()
    } else {
        s
    }
}

/// Whether an integer literal carries a leading minus sign.
pub open spec fn int_negative(s: Seq<char>) -> bool {
    s.len() > 0 && s.first() == '-'
}

/// What parsing a signed 32-bit decimal integer yields: the value, when
/// the text is one optional sign followed by at least one digit and the
/// signed value fits; nothing otherwise.
pub open spec fn parse_i32_spec(s: Seq<char>) -> Option<int> {
    if int_body(s).len() > 0 && all_digits(int_body(s)) {
        let v = if int_negative(s) {
            -digits_val(int_body(s))
        } else {
            digits_val(int_body(s))
        };
        if -0x8000_0000 <= v <= 0x7fff_ffff {
            Some(v)
        } else {
            None
        }
    } else {
        None
    }
}

proof fn lemma_digits_nonneg(s: Seq<char>)
    requires
        all_digits(s),
    ensures
        digits_val(s) >= 0,
    decreases s.len(),
{
    if s.len() > 0 {
        assert(all_digits(s.drop_last()));
        lemma_digits_nonneg(s.drop_last());
    }
}

/// Reading further digits never shrinks the value: the whole sequence is
/// at least its prefix.
proof fn lemma_digits_prefix_le(s: Seq<char>, k: int)
    requires
        all_digits(s),
        0 <= k <= s.len(),
    ensures
        digits_val(s) >= digits_val(s.take(k)),
    decreases s.len() - k,
{
    if k == s.len() {
        assert(s.take(k) =~= s);
    } else {
        assert(s.take(k + 1).drop_last() =~= s.take(k));
        assert(all_digits(s.take(k)));
        lemma_digits_nonneg(s.take(k));
        assert(digits_val(s.take(k + 1)) == digits_val(s.take(k)) * 10 + digit_val(
            s.take(k + 1).last(),
        ));
        assert(digits_val(s.take(k + 1)) >= digits_val(s.take(k)));
        lemma_digits_prefix_le(s, k + 1);
    }
}

/// Parse a signed 32-bit decimal integer, exactly as `parse_i32_spec`
/// describes; anything unparsable is the reported bad-exit-code error.
pub fn parse_i32(s: &str) -> (r: Result<i32, ShellError>)
    ensures
        r == (match parse_i32_spec(s@) {
            Some(v) => Ok::<i32, ShellError>(v as i32),
            None => Err::<i32, ShellError>(ShellError::BadExitCode),
        }),
{
    let n = s.unicode_len();
    let mut start: usize = 0;
    let mut neg = false;
    if n > 0 {
        let c0 = s.get_char(0);
        if c0 == '-' {
            neg = true;
            start = 1;
        } else if c0 == '+' {
            start = 1;
        }
    }
    let ghost body = int_body(s@);
    proof {
        if start == 1 {
            assert(body =~= s@.subrange(1, n as int));
        } else {
            assert(body =~= s@);
        }
        assert(body.len() == n - start);
    }
    if start >= n {
        return Err(ShellError::BadExitCode);
    }
    let mut acc: u64 = 0;
    let mut i: usize = start;
    while i < n
        invariant
            start <= i <= n,
            n == s@.len(),
            body == int_body(s@),
            body.len() == n - start,
            forall|j: int| 0 <= j < i - start ==> is_digit(#[trigger] body[j]),
            forall|j: int| 0 <= j < i - start ==> body[j] == s@[j + start],
            forall|j: int| i - start <= j < body.len() ==> body[j] == s@[j + start],
            acc == digits_val(body.take(i - start)),
            acc <= 0x8000_0000,
        decreases n - i,
    {
        let c = s.get_char(i);
        let d = c as u32;
        if d < 48 || d > 57 {
            proof {
                assert(!is_digit(body[i - start]));
                assert(!all_digits(body));
            }
            return Err(ShellError::BadExitCode);
        }
        proof {
            assert(body.take(i - start + 1).drop_last() =~= body.take(i - start));
            assert(body.take(i - start + 1).last() == body[i - start]);
        }
        acc = acc * 10 + ((d - 48) as u64);
        i = i + 1;
        if acc > 0x8000_0000 {
            proof {
                if all_digits(body) {
                    lemma_digits_prefix_le(body, i - start);
                }
            }
            return Err(ShellError::BadExitCode);
        }
    }
    proof {
        assert(body.take(n - start) =~= body);
    }
    if neg {
        let v: i64 = -(acc as i64);
        Ok(v as i32)
    } else {
        if acc > 0x7fff_ffff {
            return Err(ShellError::BadExitCode);
        }
        Ok(acc as i32)
    }
}

/// The fixed set of operation names the builtin dispatcher recognises.
pub open spec fn builtin_name_known(s: Seq<char>) -> bool {
    s == "cd"@ || s == "pwd"@ || s == "/bin/pwd"@ || s == "exec"@ || s == "exit"@
}

/// Whether a string equals a given literal.
fn string_is(s: &String, lit: &str) -> (r: bool)
    ensures
        r == (s@ == lit@),
{
    let l = String::from_str(lit);
    *s == l
}

/// Recognise a builtin invocation: the first word must be one of the
/// fixed operation names.  The returned node carries a copy of the whole
/// argument vector, the operation name included.
pub fn build_builtin_command(in_args: &Vec<String>) -> (r: Option<BuiltinCommand>)
    ensures
        r is Some <==> (in_args@.len() > 0 && builtin_name_known(in_args@[0]@)),
        r matches Some(b) ==> b.args@.len() == in_args@.len() && (forall|i: int|
            0 <= i < in_args@.len() ==> #[trigger] b.args@[i]@ == in_args@[i]@),
{
    if in_args.len() == 0 {
        return None;
    }
    let known = string_is(&in_args[0], "cd") || string_is(&in_args[0], "pwd") || string_is(
        &in_args[0],
        "/bin/pwd",
    ) || string_is(&in_args[0], "exec") || string_is(&in_args[0], "exit");
    if !known {
        return None;
    }
    let mut args: Vec<String> = Vec::new();
    let n = in_args.len();
    let mut i: usize = 0;
    while i < n
        invariant
            0 <= i <= n,
            n == in_args@.len(),
            args@.len() == i,
            forall|j: int| 0 <= j < i ==> #[trigger] args@[j]@ == in_args@[j]@,
        decreases n - i,
    {
        args.push(in_args[i].clone());
        i = i + 1;
    }
    Some(BuiltinCommand { args })
}

/// On which argument vectors the builtin dispatcher succeeds: a known
/// operation name with the arguments its operation needs.
pub open spec fn builtin_dispatch_ok(a: Seq<String>) -> bool {
    if a.len() == 0 {
        false
    } else if a[0]@ == "cd"@ {
        a.len() >= 2
    } else if a[0]@ == "pwd"@ || a[0]@ == "/bin/pwd"@ {
        true
    } else if a[0]@ == "exec"@ {
        a.len() >= 2
    } else if a[0]@ == "exit"@ {
        a.len() == 1 || parse_i32_spec(a[1]@) is Some
    } else {
        false
    }
}

/// The synchronous operation a builtin node asks the surrounding process
/// to perform.  Replacing the process image and terminating the shell
/// never return to the engine on success.
#[derive(Clone, PartialEq, Eq, Debug)]
pub enum BuiltinAction {
    /// Change the current directory to the given path.
    ChangeDir(String),
    /// Print the current directory on the shell's own output.
    PrintWorkingDir,
    /// Replace the process image: the program and its arguments.
    ReplaceImage(Vec<String>),
    /// Terminate the shell with the given exit code.
    Exit(i32),
}

/// Decide what a builtin invocation performs, or which error to report:
/// the operation name selects the action, a missing target or a
/// non-numeric exit code is rejected, and any other name is unknown.
pub fn dispatch_builtin(args: Vec<String>) -> (r: Result<BuiltinAction, ShellError>)
    ensures
        r is Ok <==> builtin_dispatch_ok(args@),
        ({
            let a = args@;
            if a.len() == 0 {
                r == Err::<BuiltinAction, ShellError>(ShellError::MalformedBuiltin)
            } else if a[0]@ == "cd"@ {
                if a.len() >= 2 {
                    r matches Ok(act) && act matches BuiltinAction::ChangeDir(p) && p == a[1]
                } else {
                    r == Err::<BuiltinAction, ShellError>(ShellError::MissingArgument)
                }
            } else if a[0]@ == "pwd"@ || a[0]@ == "/bin/pwd"@ {
                r == Ok::<BuiltinAction, ShellError>(BuiltinAction::PrintWorkingDir)
            } else if a[0]@ == "exec"@ {
                if a.len() >= 2 {
                    r matches Ok(act) && act matches BuiltinAction::ReplaceImage(v) && v@
                        == a.subrange(1, a.len() as int)
                } else {
                    r == Err::<BuiltinAction, ShellError>(ShellError::MissingArgument)
                }
            } else if a[0]@ == "exit"@ {
                if a.len() == 1 {
                    r == Ok::<BuiltinAction, ShellError>(BuiltinAction::Exit(0))
                } else {
                    r == (match parse_i32_spec(a[1]@) {
                        Some(v) => Ok::<BuiltinAction, ShellError>(BuiltinAction::Exit(v as i32)),
                        None => Err::<BuiltinAction, ShellError>(ShellError::BadExitCode),
                    })
                }
            } else {
                r == Err::<BuiltinAction, ShellError>(ShellError::UnknownBuiltin)
            }
        }),
{
    proof {
        reveal_strlit("cd");
        reveal_strlit("pwd");
        reveal_strlit("/bin/pwd");
        reveal_strlit("exec");
        reveal_strlit("exit");
    }
    if args.len() == 0 {
        return Err(ShellError::MalformedBuiltin);
    }
    if string_is(&args[0], "cd") {
        if args.len() >= 2 {
            let mut a = args;
            let target = a.remove(1);
            Ok(BuiltinAction::ChangeDir(target))
        } else {
            Err(ShellError::MissingArgument)
        }
    } else if string_is(&args[0], "pwd") || string_is(&args[0], "/bin/pwd") {
        Ok(BuiltinAction::PrintWorkingDir)
    } else if string_is(&args[0], "exec") {
        if args.len() >= 2 {
            let ghost orig = args@;
            let mut a = args;
            a.remove(0);
            proof {
                assert(a@ =~= orig.subrange(1, orig.len() as int));
            }
            Ok(BuiltinAction::ReplaceImage(a))
        } else {
            Err(ShellError::MissingArgument)
        }
    } else if string_is(&args[0], "exit") {
        if args.len() == 1 {
            Ok(BuiltinAction::Exit(0))
        } else {
            match parse_i32(args[1].as_str()) {
                Ok(v) => Ok(BuiltinAction::Exit(v)),
                Err(_) => Err(ShellError::BadExitCode),
            }
        }
    } else {
        Err(ShellError::UnknownBuiltin)
    }
}

} // verus!
