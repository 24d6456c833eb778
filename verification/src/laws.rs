//! What holds of composition and of reports in general, stated over the same
//! spec functions as the contracts of the functions themselves.

use crate::args::{flag_tokens, valued_tokens};
use crate::ops::{
    colima_start_tokens, docker_container_list_tokens, docker_container_logs_tokens,
    docker_container_remove_tokens, docker_image_remove_tokens, docker_network_create_tokens,
    docker_volume_remove_tokens,
};
use crate::output::{decoded, reports, CommandOutput, ProcessOutcome};
use crate::text::{decimal, decimal_value, digit_char, lemma_decimal_shape, TokenText};
use vstd::prelude::*;

verus! {

/// The number of tokens that an optional value contributes: two when it is
/// present, none when it is absent.
pub open spec fn contribution<T>(value: Option<T>) -> nat {
    if value is Some {
        2
    } else {
        0
    }
}

/// An absent value leaves the list exactly as it was. A present one adds its
/// flag and then its text, and nothing else; so the length after the step is
/// the length before plus what present values contribute.
pub proof fn law_absent_value_leaves_no_token<T: TokenText>(
    tokens: Seq<Seq<char>>,
    flag: Seq<char>,
    value: Option<T>,
)
    ensures
        value is None ==> tokens + valued_tokens(flag, value) == tokens,
        value is Some ==> tokens + valued_tokens(flag, value) == tokens.push(flag).push(
            value->Some_0.text(),
        ),
        (tokens + valued_tokens(flag, value)).len() == tokens.len() + contribution(value),
{
    if value is Some {
        assert(tokens + valued_tokens(flag, value) =~= tokens.push(flag).push(
            value->Some_0.text(),
        ));
    } else {
        assert(tokens + valued_tokens(flag, value) =~= tokens);
    }
}

/// The argument vector that starts the runtime holds its one fixed token and
/// two more for each size that is present.
pub proof fn law_start_length(cpu: Option<u32>, memory: Option<u32>, disk: Option<u32>)
    ensures
        colima_start_tokens(cpu, memory, disk).len() == 1 + contribution(cpu) + contribution(
            memory,
        ) + contribution(disk),
{
}

/// In the argument vector that starts the runtime, the flag of a size occurs
/// if and only if that size is present.
pub proof fn law_start_flags_follow_presence(
    cpu: Option<u32>,
    memory: Option<u32>,
    disk: Option<u32>,
)
    ensures
        colima_start_tokens(cpu, memory, disk).contains("--cpu"@) <==> cpu is Some,
        colima_start_tokens(cpu, memory, disk).contains("--memory"@) <==> memory is Some,
        colima_start_tokens(cpu, memory, disk).contains("--disk"@) <==> disk is Some,
{
    reveal_strlit("start");
    reveal_strlit("--cpu");
    reveal_strlit("--memory");
    reveal_strlit("--disk");
    let tokens = colima_start_tokens(cpu, memory, disk);
    let head = seq!["start"@];
    let a = valued_tokens("--cpu"@, cpu);
    let b = valued_tokens("--memory"@, memory);
    let c = valued_tokens("--disk"@, disk);
    assert(tokens == head + a + b + c);
    assert forall|n: nat| #![trigger decimal(n)] decimal(n)[0] != '-' by {
        lemma_decimal_shape(n);
    }
    assert("start"@[0] == 's');
    assert("--cpu"@[2] == 'c');
    assert("--memory"@[2] == 'm');
    assert("--disk"@[2] == 'd');
    assert forall|flag: Seq<char>|
        flag.len() > 2 && flag[0] == '-' && (flag[2] == 'c' || flag[2] == 'm' || flag[2] == 'd')
        implies (tokens.contains(flag) <==> {
            ||| cpu is Some && flag == "--cpu"@
            ||| memory is Some && flag == "--memory"@
            ||| disk is Some && flag == "--disk"@
        }) by {
        if tokens.contains(flag) {
            let i = choose|i: int| 0 <= i < tokens.len() && tokens[i] == flag;
            let ab = head + a;
            let abc = head + a + b;
            if i < head.len() {
                assert(tokens[i] == "start"@);
            } else if i < ab.len() {
                assert(tokens[i] == a[i - head.len()]);
            } else if i < abc.len() {
                assert(tokens[i] == b[i - ab.len()]);
            } else {
                assert(tokens[i] == c[i - abc.len()]);
            }
        }
        if cpu is Some && flag == "--cpu"@ {
            assert(tokens[1] == flag);
        }
        if memory is Some && flag == "--memory"@ {
            assert(tokens[(head + a).len() as int] == flag);
        }
        if disk is Some && flag == "--disk"@ {
            assert(tokens[(head + a + b).len() as int] == flag);
        }
    }
}

/// A log query holds its fixed token, the identifier, and two more tokens when
/// a limit is present.
pub proof fn law_logs_length(container_id: Seq<char>, tail: Option<u32>)
    ensures
        docker_container_logs_tokens(container_id, tail).len() == 2 + contribution(tail),
{
}

/// A network creation holds its two fixed tokens, the name, and two more
/// tokens when a driver is present.
pub proof fn law_network_create_length(name: Seq<char>, driver: Option<String>)
    ensures
        docker_network_create_tokens(name, driver).len() == 3 + contribution(driver),
{
}

/// Wherever an operation takes optional flags and a required identifier, the
/// identifier is the last token, whichever flags are present.
pub proof fn law_identifier_comes_last(
    id: Seq<char>,
    force: Option<bool>,
    tail: Option<u32>,
    driver: Option<String>,
)
    ensures
        docker_container_remove_tokens(id, force).last() == id,
        docker_container_logs_tokens(id, tail).last() == id,
        docker_image_remove_tokens(id, force).last() == id,
        docker_volume_remove_tokens(id, force).last() == id,
        docker_network_create_tokens(id, driver).last() == id,
{
}

/// The container listing leaves stopped containers out only when it is told
/// to: with no choice given it asks for all of them, as with `true`.
pub proof fn law_container_list_defaults_to_all(all: Option<bool>)
    ensures
        docker_container_list_tokens(None) == docker_container_list_tokens(Some(true)),
        docker_container_list_tokens(None) == seq!["ps"@, "-a"@, "--format"@, "json"@],
        docker_container_list_tokens(Some(false)) == seq!["ps"@, "--format"@, "json"@],
        docker_container_list_tokens(all).contains("-a"@) <==> all != Some(false),
{
    reveal_strlit("ps");
    reveal_strlit("-a");
    reveal_strlit("--format");
    reveal_strlit("json");
    let with_all = seq!["ps"@, "-a"@, "--format"@, "json"@];
    let without = seq!["ps"@, "--format"@, "json"@];
    assert(docker_container_list_tokens(None) =~= with_all);
    assert(docker_container_list_tokens(Some(true)) =~= with_all);
    assert(docker_container_list_tokens(Some(false)) =~= without);
    assert(with_all[1] == "-a"@);
    assert("ps"@[0] == 'p');
    assert("--format"@[1] == '-');
    assert("json"@[0] == 'j');
    assert("-a"@[1] == 'a');
    if without.contains("-a"@) {
        let i = choose|i: int| 0 <= i < without.len() && without[i] == "-a"@;
        assert(without[i][0] == '-');
        assert(without[i][1] == 'a');
    }
}

/// Reading a numeral back gives the number it was written for, so two
/// different numbers never share a numeral.
pub proof fn law_numeral_reads_back(n: nat)
    ensures
        decimal_value(decimal(n)) == n,
    decreases n,
{
    if n < 10 {
        let s = decimal(n);
        assert(s.drop_last() =~= Seq::<char>::empty());
        assert(decimal_value(s.drop_last()) == 0);
    } else {
        law_numeral_reads_back(n / 10);
        let s = decimal(n);
        assert(s.drop_last() =~= decimal(n / 10));
        assert(s.last() == digit_char(n % 10));
    }
}

/// Composition is a function of the tokens so far and of the step taken: from
/// equal lists, equal steps lead to equal lists. Values count as equal when
/// they are written alike.
pub proof fn law_same_steps_same_tokens<T: TokenText>(
    first: Seq<Seq<char>>,
    second: Seq<Seq<char>>,
    flag: Seq<char>,
    value: Option<T>,
    other: Option<T>,
    condition: bool,
    token: Seq<char>,
)
    requires
        first == second,
        value is Some <==> other is Some,
        value is Some ==> value->Some_0.text() == other->Some_0.text(),
    ensures
        first + valued_tokens(flag, value) == second + valued_tokens(flag, other),
        first + flag_tokens(flag, condition) == second + flag_tokens(flag, condition),
        first.push(token) == second.push(token),
{
    assert(valued_tokens(flag, value) =~= valued_tokens(flag, other));
}

/// No step disturbs what is already there: the tokens before a step are the
/// leading tokens after it, in the same order.
pub proof fn law_steps_only_append<T: TokenText>(
    tokens: Seq<Seq<char>>,
    flag: Seq<char>,
    value: Option<T>,
    condition: bool,
    token: Seq<char>,
)
    ensures
        tokens.is_prefix_of(tokens + valued_tokens(flag, value)),
        tokens.is_prefix_of(tokens + flag_tokens(flag, condition)),
        tokens.is_prefix_of(tokens.push(token)),
{
}

/// A switch whose condition is false changes nothing; one whose condition is
/// true adds the flag alone.
pub proof fn law_false_flag_is_noop(tokens: Seq<Seq<char>>, flag: Seq<char>)
    ensures
        tokens + flag_tokens(flag, false) == tokens,
        tokens + flag_tokens(flag, true) == tokens.push(flag),
{
    assert(tokens + flag_tokens(flag, false) =~= tokens);
    assert(tokens + flag_tokens(flag, true) =~= tokens.push(flag));
}

/// Every report of an outcome says success exactly when an exit status is
/// present and is zero.
pub proof fn law_success_iff_zero_status(output: CommandOutput, outcome: ProcessOutcome)
    requires
        reports(output, outcome),
    ensures
        output.success <==> output.code == Some(0i32),
        output.consistent(),
{
}

/// A stream on which nothing was written is reported as the empty text.
pub proof fn law_silent_stream_is_empty_text()
    ensures
        decoded(Seq::<u8>::empty()) == Seq::<char>::empty(),
{
    let nothing = Seq::<u8>::empty();
    assert(vstd::utf8::valid_utf8(nothing));
    assert(vstd::utf8::decode_utf8(nothing) =~= Seq::<char>::empty());
}

/// The report of a failed launch carries no exit status, no output, and a
/// description that is never empty and ends with the reason given.
pub proof fn law_launch_failure_is_described(output: CommandOutput, reason: String)
    requires
        reports(output, ProcessOutcome::LaunchFailed { reason }),
    ensures
        !output.success,
        output.code is None,
        output.stdout@.len() == 0,
        output.stderr@.len() > 0,
        output.stderr@.len() >= reason@.len(),
        output.stderr@.subrange(output.stderr@.len() - reason@.len(), output.stderr@.len() as int)
            == reason@,
{
    reveal_strlit("执行命令失败: ");
    let prefix = "执行命令失败: "@;
    assert(output.stderr@ == prefix + reason@);
    assert((prefix + reason@).subrange(prefix.len() as int, (prefix + reason@).len() as int)
        =~= reason@);
}

} // verus!
