//! Orphan reaping: which commands list the processes that listen on a port,
//! which process identifiers their output names, and which commands
//! terminate them.

use crate::command::{CommandLine, CommandModel};
use crate::text::{
    chars_of, decimal, decode_lossy, ends_with, lemma_decimal_injective, lemma_decimal_shape,
    lemma_texts_push, line_end_at, line_len,
    matches_at, pieces, push_decimal, string_of, texts, trim, trim_end_at, trim_start_at,
    utf8_lossy, word_bounds_at, words,
};
use vstd::prelude::*;

verus! {

/// The platform family, which decides how listeners are found and killed.
#[derive(Debug, Clone, Copy, PartialEq, Eq, Structural)]
pub enum Platform {
    /// Listeners are read from the table of network connections.
    Windows,
    /// Listeners are looked up in the table of open sockets.
    Unix,
}

/// The text that a local address on `port` ends in.
pub open spec fn port_marker(port: u16) -> Seq<char> {
    seq![':'] + decimal(port as nat)
}

/// A local address that is written with the port `other` ends in the
/// marker of `port` only when the two ports are the same: a port with
/// the same leading or trailing digits does not count.
pub proof fn lemma_marker_names_one_port(host: Seq<char>, other: u16, port: u16)
    ensures
        ends_with(host + port_marker(other), port_marker(port)) <==> other == port,
{
    let address = host + port_marker(other);
    let theirs = decimal(other as nat);
    let ours = decimal(port as nat);
    lemma_decimal_shape(other as nat);
    lemma_decimal_shape(port as nat);
    assert(port_marker(other).len() == theirs.len() + 1);
    assert(port_marker(port).len() == ours.len() + 1);
    if other == port {
        assert(address.skip(address.len() - port_marker(port).len()) =~= port_marker(port));
    }
    if ends_with(address, port_marker(port)) {
        let start = address.len() - port_marker(port).len();
        let tail = address.skip(start);
        assert(tail[0] == ':');
        assert(tail[0] == address[start]);
        if ours.len() < theirs.len() {
            let k = start - host.len() - 1;
            assert(address[start] == theirs[k]);
        } else if ours.len() > theirs.len() {
            let k = host.len() - start;
            assert(tail[k] == address[host.len() as int]);
            assert(address[host.len() as int] == ':');
            assert(tail[k] == ours[k - 1]);
        } else {
            assert(theirs =~= ours) by {
                assert forall|i: int| 0 <= i < theirs.len() implies theirs[i] == ours[i] by {
                    assert(tail[i + 1] == address[start + i + 1]);
                    assert(address[start + i + 1] == theirs[i]);
                    assert(tail[i + 1] == ours[i]);
                }
            }
            lemma_decimal_injective(other as nat, port as nat);
        }
    }
}

/// The process identifier that one line of the enumeration names, if any.
///
/// On Windows the line is a row of the table of network connections, its
/// columns being the protocol, the local address, the foreign address, the
/// state and the process identifier. A row names a listener of the port
/// when its local address ends in the colon and the port, its state is
/// `LISTENING`, and it has all five columns; its last column is the
/// identifier. On Unix every line that is not blank is an identifier,
/// taken without the whitespace around it.
pub open spec fn listener_in_line(platform: Platform, port: u16, line: Seq<char>) -> Option<
    Seq<char>,
> {
    match platform {
        Platform::Windows => {
            let columns = words(line);
            if columns.len() >= 5 && ends_with(columns[1], port_marker(port)) && columns[3]
                == "LISTENING"@ {
                Some(columns.last())
            } else {
                None
            }
        },
        Platform::Unix => if trim(line).len() > 0 {
            Some(trim(line))
        } else {
            None
        },
    }
}

/// The process identifiers that the enumeration output names, line by
/// line, in the order of the lines. Lines end at line feeds.
pub open spec fn listeners(platform: Platform, port: u16, text: Seq<char>) -> Seq<Seq<char>>
    decreases text.len(),
{
    if text.len() == 0 {
        Seq::empty()
    } else {
        let n = line_len(text) as int;
        let here = match listener_in_line(platform, port, text.take(n)) {
            Some(pid) => seq![pid],
            None => Seq::empty(),
        };
        if n >= text.len() {
            here
        } else {
            here + listeners(platform, port, text.skip(n + 1))
        }
    }
}

/// The command that lists the listeners of `port`: the whole table of
/// connections on Windows, and on Unix the identifiers of the processes
/// that hold a TCP socket on the port in the listening state.
pub open spec fn enumerate_command_spec(platform: Platform, port: u16) -> CommandModel {
    match platform {
        Platform::Windows => CommandModel {
            program: "netstat"@,
            args: seq!["-ano"@],
            env: Seq::empty(),
        },
        Platform::Unix => CommandModel {
            program: "lsof"@,
            args: seq!["-t"@, "-i:"@ + decimal(port as nat), "-sTCP:LISTEN"@],
            env: Seq::empty(),
        },
    }
}

/// The command that terminates the process `pid`.
pub open spec fn terminate_command_spec(platform: Platform, pid: Seq<char>) -> CommandModel {
    match platform {
        Platform::Windows => CommandModel {
            program: "taskkill"@,
            args: seq!["/F"@, "/PID"@, pid],
            env: Seq::empty(),
        },
        Platform::Unix => CommandModel { program: "kill"@, args: seq!["-9"@, pid], env: Seq::empty() },
    }
}

/// Builds the command that lists the listeners of `port`.
pub fn enumerate_command(platform: Platform, port: u16) -> (command: CommandLine)
    ensures
        command@ == enumerate_command_spec(platform, port),
{
    let mut args: Vec<String> = Vec::new();
    let program = match platform {
        Platform::Windows => {
            args.push("-ano".to_owned());
            "netstat".to_owned()
        },
        Platform::Unix => {
            args.push("-t".to_owned());
            let mut filter = "-i:".to_owned();
            push_decimal(&mut filter, port as u64);
            args.push(filter);
            args.push("-sTCP:LISTEN".to_owned());
            "lsof".to_owned()
        },
    };
    let command = CommandLine { program, args, env: Vec::new() };
    assert(command@.args =~= enumerate_command_spec(platform, port).args);
    assert(command@.env =~= enumerate_command_spec(platform, port).env);
    command
}

/// Builds the command that terminates the process `pid`.
pub fn terminate_command(platform: Platform, pid: &str) -> (command: CommandLine)
    ensures
        command@ == terminate_command_spec(platform, pid@),
{
    let mut args: Vec<String> = Vec::new();
    let program = match platform {
        Platform::Windows => {
            args.push("/F".to_owned());
            args.push("/PID".to_owned());
            args.push(pid.to_owned());
            "taskkill".to_owned()
        },
        Platform::Unix => {
            args.push("-9".to_owned());
            args.push(pid.to_owned());
            "kill".to_owned()
        },
    };
    let command = CommandLine { program, args, env: Vec::new() };
    assert(command@.args =~= terminate_command_spec(platform, pid@).args);
    assert(command@.env =~= terminate_command_spec(platform, pid@).env);
    command
}

/// The bounds in `chars` of the identifier named by the line
/// `chars[from..to]`, if it names one.
fn listener_at(
    platform: Platform,
    port: u16,
    marker: &Vec<char>,
    word: &Vec<char>,
    chars: &Vec<char>,
    from: usize,
    to: usize,
) -> (found: Option<(usize, usize)>)
    requires
        from <= to <= chars@.len(),
        marker@ == port_marker(port),
        word@ == "LISTENING"@,
    ensures
        match found {
            Some(bounds) => from <= bounds.0 <= bounds.1 <= to && listener_in_line(
                platform,
                port,
                chars@.subrange(from as int, to as int),
            ) == Some(chars@.subrange(bounds.0 as int, bounds.1 as int)),
            None => listener_in_line(platform, port, chars@.subrange(from as int, to as int))
                is None,
        },
{
    match platform {
        Platform::Windows => {
            let columns = word_bounds_at(chars, from, to);
            let ghost line = chars@.subrange(from as int, to as int);
            assert(pieces(chars@, columns@).len() == words(line).len());
            if columns.len() < 5 {
                return None;
            }
            let local = columns[1];
            let state = columns[3];
            let last = columns[columns.len() - 1];
            proof {
                assert(pieces(chars@, columns@)[1] == words(line)[1]);
                assert(pieces(chars@, columns@)[3] == words(line)[3]);
                assert(pieces(chars@, columns@)[columns@.len() - 1] == words(line).last());
            }
            let m = marker.len();
            let on_port = local.1 - local.0 >= m && matches_at(chars, local.1 - m, marker);
            let listening = state.1 - state.0 == word.len() && matches_at(chars, state.0, word);
            proof {
                let address = chars@.subrange(local.0 as int, local.1 as int);
                if address.len() >= m {
                    assert(address.skip(address.len() - m) =~= chars@.subrange(
                        local.1 - m,
                        local.1 as int,
                    ));
                }
                assert(on_port == ends_with(address, marker@));
                assert(listening == (chars@.subrange(state.0 as int, state.1 as int) == word@));
            }
            if on_port && listening {
                Some(last)
            } else {
                None
            }
        },
        Platform::Unix => {
            let start = trim_start_at(chars, from, to);
            let end = trim_end_at(chars, start, to);
            if start < end {
                Some((start, end))
            } else {
                None
            }
        },
    }
}

/// Reads the process identifiers that listen on `port` out of the text that
/// the enumeration command printed.
pub fn find_listeners(platform: Platform, port: u16, output: &str) -> (pids: Vec<String>)
    ensures
        texts(pids@) == listeners(platform, port, output@),
{
    let chars = chars_of(output);
    let mut marker_text = ":".to_owned();
    push_decimal(&mut marker_text, port as u64);
    let marker = chars_of(marker_text.as_str());
    let word = chars_of("LISTENING");
    proof {
        reveal_strlit(":");
        assert(":"@ =~= seq![':']);
    }
    let total = chars.len();
    let mut pids: Vec<String> = Vec::new();
    let mut pos: usize = 0;
    assert(chars@.subrange(0, total as int) =~= chars@);
    while pos < total
        invariant
            pos <= total == chars@.len(),
            marker@ == port_marker(port),
            word@ == "LISTENING"@,
            texts(pids@) + listeners(platform, port, chars@.subrange(pos as int, total as int))
                == listeners(platform, port, chars@),
        decreases total - pos,
    {
        let end = line_end_at(&chars, pos, total);
        let found = listener_at(platform, port, &marker, &word, &chars, pos, end);
        let ghost rest = chars@.subrange(pos as int, total as int);
        let ghost before = texts(pids@);
        proof {
            assert(rest.take(end - pos) =~= chars@.subrange(pos as int, end as int));
        }
        match found {
            Some(bounds) => {
                let pid = string_of(&chars, bounds.0, bounds.1);
                proof {
                    lemma_texts_push(pids@, pid);
                }
                pids.push(pid);
            },
            None => {},
        }
        if end < total {
            proof {
                assert(rest.skip(end - pos + 1) =~= chars@.subrange(end as int + 1, total as int));
                let here = texts(pids@).skip(before.len() as int);
                assert(texts(pids@) =~= before + here);
                assert((before + here) + listeners(
                    platform,
                    port,
                    chars@.subrange(end as int + 1, total as int),
                ) =~= before + (here + listeners(
                    platform,
                    port,
                    chars@.subrange(end as int + 1, total as int),
                )));
            }
            pos = end + 1;
        } else {
            proof {
                let here = texts(pids@).skip(before.len() as int);
                assert(texts(pids@) =~= before + here);
                assert(chars@.subrange(total as int, total as int) =~= Seq::<char>::empty());
                assert(texts(pids@) + Seq::<Seq<char>>::empty() =~= texts(pids@));
            }
            pos = total;
        }
    }
    proof {
        assert(chars@.subrange(total as int, total as int) =~= Seq::<char>::empty());
        assert(texts(pids@) + Seq::<Seq<char>>::empty() =~= texts(pids@));
    }
    pids
}

/// The commands that terminate the processes `pids`, one for each, in
/// their order.
pub open spec fn reap_commands_spec(platform: Platform, pids: Seq<Seq<char>>) -> Seq<CommandModel> {
    Seq::new(pids.len(), |i: int| terminate_command_spec(platform, pids[i]))
}

/// The contents of a list of commands.
pub open spec fn command_models(commands: Seq<CommandLine>) -> Seq<CommandModel> {
    Seq::new(commands.len(), |i: int| commands[i]@)
}

/// Builds the commands that terminate every process that the enumeration
/// output names as a listener of `port`.
pub fn reap_commands(platform: Platform, port: u16, output: &[u8]) -> (commands: Vec<CommandLine>)
    ensures
        command_models(commands@) == reap_commands_spec(
            platform,
            listeners(platform, port, utf8_lossy(output@)),
        ),
{
    let pids = listeners_in_output(platform, port, output);
    let mut commands: Vec<CommandLine> = Vec::new();
    let mut i: usize = 0;
    while i < pids.len()
        invariant
            i <= pids@.len(),
            commands@.len() == i,
            forall|k: int|
                0 <= k < i ==> (#[trigger] commands@[k])@ == terminate_command_spec(
                    platform,
                    pids@[k]@,
                ),
        decreases pids@.len() - i,
    {
        commands.push(terminate_command(platform, pids[i].as_str()));
        i = i + 1;
    }
    assert(command_models(commands@) =~= reap_commands_spec(platform, texts(pids@)));
    commands
}

/// Reads the process identifiers that listen on `port` out of the bytes
/// that the enumeration command printed; bytes that are no valid text are
/// replaced, never refused.
pub fn listeners_in_output(platform: Platform, port: u16, output: &[u8]) -> (pids: Vec<String>)
    ensures
        texts(pids@) == listeners(platform, port, utf8_lossy(output@)),
{
    let text = decode_lossy(output);
    find_listeners(platform, port, text.as_str())
}

} // verus!
