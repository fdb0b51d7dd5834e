//! Print queues and the commands that manage them.
use vstd::prelude::*;
use vstd::string::*;
use vstd::utf8::*;

use crate::application::ports::{SystemQueueSpec, SystemQueueSpecView};
use crate::domain::id::{parsed_id, valid_id, SystemQueueId};
use crate::domain::printer::{LocalPrinter, LocalPrinterView};
use crate::error::{outcome, PrintError, PrintErrorView, PrintResult};
use crate::model::{lemma_filter_drops_all, lemma_filter_single, opt, views};
use crate::parts::{replace_char, replaced_char};
use crate::text::{chars_of, is_white_space, same, trim_text, trimmed, utf8_len};

verus! {

/// A letter, a digit, a hyphen or an underscore.
pub open spec fn is_queue_char(c: char) -> bool {
    ||| 'a' <= c && c <= 'z'
    ||| 'A' <= c && c <= 'Z'
    ||| '0' <= c && c <= '9'
    ||| c == '-'
    ||| c == '_'
}

/// A name that every print system takes as it is.
pub open spec fn is_queue_name(name: Seq<char>) -> bool {
    &&& name.len() > 0
    &&& encode_utf8(name).len() <= 127
    &&& forall|i: int| 0 <= i < name.len() ==> is_queue_char(#[trigger] name[i])
}

/// What is wrong with the name of a queue, if anything.
pub open spec fn queue_name_check(name: Seq<char>) -> core::result::Result<(), PrintErrorView> {
    if is_queue_name(name) {
        Ok(())
    } else {
        Err(PrintErrorView::Invalid("queue name may contain only letters, digits, '-' and '_'"@))
    }
}

fn queue_name_ok(name: &str) -> (r: bool)
    ensures
        r == is_queue_name(name@),
{
    let chars = chars_of(name);
    if chars.len() == 0 || utf8_len(name) > 127 {
        return false;
    }
    let mut i: usize = 0;
    while i < chars.len()
        invariant
            chars@ == name@,
            i <= chars@.len(),
            forall|j: int| 0 <= j < i ==> is_queue_char(#[trigger] name@[j]),
        decreases chars@.len() - i,
    {
        let c: char = chars[i];
        let good = ('a' <= c && c <= 'z') || ('A' <= c && c <= 'Z') || ('0' <= c && c <= '9') || c
            == '-' || c == '_';
        if !good {
            assert(!is_queue_char(name@[i as int]));
            return false;
        }
        i += 1;
    }
    true
}

/// Checks the name of a queue.
pub fn validate_queue_name(name: &str) -> (r: PrintResult<()>)
    ensures
        outcome(r) == queue_name_check(name@),
{
    if !queue_name_ok(name) {
        return Err(
            PrintError::Invalid(
                "queue name may contain only letters, digits, '-' and '_'".to_string(),
            ),
        );
    }
    Ok(())
}

/// The identifier of the queue to be installed, if its name is in order.
pub open spec fn installable_queue(spec: SystemQueueSpecView) -> core::result::Result<
    Seq<char>,
    PrintErrorView,
> {
    match queue_name_check(spec.queue_name) {
        Ok(_) => parsed_id("system queue id"@, spec.queue_name),
        Err(error) => Err(error),
    }
}

/// The identifier of the queue to be installed, if its name is in order.
pub fn queue_to_install(spec: &SystemQueueSpec) -> (r: PrintResult<SystemQueueId>)
    ensures
        outcome(r) == installable_queue(spec@),
{
    match validate_queue_name(spec.queue_name.as_str()) {
        Ok(_) => SystemQueueId::parse(spec.queue_name.as_str()),
        Err(error) => Err(error),
    }
}

/// The first printer called `id`.
pub open spec fn printer_called(printers: Seq<LocalPrinterView>, id: Seq<char>) -> Option<
    LocalPrinterView,
>
    decreases printers.len(),
{
    if printers.len() == 0 {
        None
    } else if printers[0].id == id {
        Some(printers[0])
    } else {
        printer_called(printers.drop_first(), id)
    }
}

/// The first printer called `id`.
pub fn find_printer(printers: &Vec<LocalPrinter>, id: &str) -> (r: Option<LocalPrinter>)
    ensures
        opt(r) == printer_called(views(printers@), id@),
{
    let ghost all = views(printers@);
    let mut i: usize = 0;
    assert(all.skip(0) =~= all);
    while i < printers.len()
        invariant
            i <= printers@.len(),
            all == views(printers@),
            printer_called(all, id@) == printer_called(all.skip(i as int), id@),
        decreases printers@.len() - i,
    {
        assert(all.skip(i as int)[0] == printers@[i as int]@);
        assert(all.skip(i as int).drop_first() =~= all.skip(i + 1));
        if same(printers[i].id.as_str(), id) {
            return Some(printers[i].clone());
        }
        i += 1;
    }
    None
}

/// Whether a queue is among the printers of the operating system.
pub fn queue_exists(printers: &Vec<LocalPrinter>, id: &SystemQueueId) -> (r: bool)
    ensures
        r == (printer_called(views(printers@), id@) is Some),
{
    match find_printer(printers, id.as_str()) {
        Some(_) => true,
        None => false,
    }
}

/// What a command has come to: its output, or what it says of its failure.
pub open spec fn command_outcome(
    success: bool,
    status: Seq<char>,
    stdout: Seq<char>,
    stderr: Seq<char>,
) -> core::result::Result<Seq<char>, PrintErrorView> {
    if success {
        Ok(trim_text(stdout))
    } else if trim_text(stderr).len() == 0 {
        Err(PrintErrorView::Backend("print command exited with "@ + status))
    } else {
        Err(PrintErrorView::Backend(trim_text(stderr)))
    }
}

/// What a command has come to: its output, or what it says of its failure.
pub fn command_result(success: bool, status: &str, stdout: &str, stderr: &str) -> (r: PrintResult<
    String,
>)
    ensures
        outcome(r) == command_outcome(success, status@, stdout@, stderr@),
{
    if success {
        return Ok(trimmed(stdout));
    }
    let error = trimmed(stderr);
    if chars_of(error.as_str()).len() == 0 {
        let mut message = "print command exited with ".to_string();
        message.append(status);
        return Err(PrintError::Backend(message));
    }
    Err(PrintError::Backend(error))
}

/// `value` as it stands between single quotes in PowerShell.
pub open spec fn quoted(value: Seq<char>) -> Seq<char> {
    replaced_char(value, '\'', "''"@)
}

/// `value` as it stands between single quotes in PowerShell.
pub fn powershell_single_quoted(value: &str) -> (r: String)
    ensures
        r@ == quoted(value@),
{
    replace_char(value, '\'', "''")
}

/// An assignment for each variable.
pub open spec fn assignments(environment: Seq<(Seq<char>, Seq<char>)>) -> Seq<char>
    decreases environment.len(),
{
    if environment.len() == 0 {
        seq![]
    } else {
        let (name, value) = environment.last();
        assignments(environment.drop_last()) + "$env:"@ + name + " = '"@ + quoted(value) + "'\n"@
    }
}

/// Variables with their values, as sequences of characters.
pub open spec fn variables(environment: Seq<(&str, &str)>) -> Seq<(Seq<char>, Seq<char>)> {
    environment.map_values(|v: (&str, &str)| (v.0@, v.1@))
}

/// A script that sets variables, performs an operation and writes down why it
/// failed, if it does.
pub open spec fn elevated_script(
    operation: Seq<char>,
    environment: Seq<(Seq<char>, Seq<char>)>,
    result_path: Seq<char>,
) -> Seq<char> {
    "$ErrorActionPreference = 'Stop'\n"@ + assignments(environment) + "try {\n"@ + operation
        + "\n} catch {\n"@ + "[IO.File]::WriteAllText('"@ + quoted(result_path)
        + "', $_.Exception.Message)\n"@ + "exit 1\n}\n"@
}

/// A script that sets variables, performs an operation and writes down why it
/// failed, if it does. The values are part of the script, so that it needs
/// nothing from the environment of its process.
pub fn build_elevated_powershell_script(
    operation: &str,
    environment: &[(&str, &str)],
    result_path: &str,
) -> (r: String)
    ensures
        r@ == elevated_script(operation@, variables(environment@), result_path@),
{
    let mut settings = String::new();
    let ghost all = variables(environment@);
    let mut i: usize = 0;
    assert(settings@ =~= seq![]);
    while i < environment.len()
        invariant
            i <= environment@.len(),
            all == variables(environment@),
            settings@ == assignments(all.take(i as int)),
        decreases environment@.len() - i,
    {
        let (name, value) = environment[i];
        assert(all.take(i + 1).drop_last() =~= all.take(i as int));
        assert(all.take(i + 1).last() == (name@, value@));
        settings.append("$env:");
        settings.append(name);
        settings.append(" = '");
        settings.append(powershell_single_quoted(value).as_str());
        settings.append("'\n");
        i += 1;
    }
    assert(all.take(i as int) =~= all);
    let mut script = "$ErrorActionPreference = 'Stop'\n".to_string();
    script.append(settings.as_str());
    script.append("try {\n");
    script.append(operation);
    script.append("\n} catch {\n");
    script.append("[IO.File]::WriteAllText('");
    script.append(powershell_single_quoted(result_path).as_str());
    script.append("', $_.Exception.Message)\n");
    script.append("exit 1\n}\n");
    script
}

/// Whether a character is `c`.
pub open spec fn is_char(c: char) -> spec_fn(char) -> bool {
    |x: char| x == c
}

/// How many times `c` stands in `s`.
pub open spec fn occurrences(s: Seq<char>, c: char) -> nat {
    s.filter(is_char(c)).len()
}

/// Between single quotes no value ends the quotation: every quote in it is
/// doubled, and nothing else is changed.
pub proof fn law_quotes_are_doubled(value: Seq<char>)
    ensures
        occurrences(quoted(value), '\'') == 2 * occurrences(value, '\''),
        quoted(value).len() == value.len() + occurrences(value, '\''),
        occurrences(value, '\'') == 0 ==> quoted(value) == value,
    decreases value.len(),
{
    if value.len() == 0 {
        assert(quoted(value) =~= value);
        lemma_filter_drops_all(value, is_char('\''));
    } else {
        let before = value.drop_last();
        let last = seq![value.last()];
        law_quotes_are_doubled(before);
        assert(value =~= before + last);
        lemma_occurrences_add(before, last, '\'');
        lemma_filter_single(value.last(), is_char('\''));
        if value.last() == '\'' {
            reveal_strlit("''");
            assert("''"@ =~= last + last);
            lemma_occurrences_add(last, last, '\'');
            lemma_occurrences_add(quoted(before), "''"@, '\'');
        } else {
            lemma_occurrences_add(quoted(before), last, '\'');
            if occurrences(value, '\'') == 0 {
                assert(quoted(value) =~= value);
            }
        }
    }
}

proof fn lemma_occurrences_add(a: Seq<char>, b: Seq<char>, c: char)
    ensures
        occurrences(a + b, c) == occurrences(a, c) + occurrences(b, c),
{
    Seq::filter_distributes_over_add(a, b, is_char(c));
}

/// A name that is taken for a queue holds nothing that a shell treats as
/// special, and is not blank.
pub proof fn law_queue_names_are_safe(name: Seq<char>, i: int)
    requires
        is_queue_name(name),
        0 <= i < name.len(),
    ensures
        name[i] != ' ' && name[i] != ';' && name[i] != '\'' && name[i] != '"' && name[i] != '$'
            && name[i] != '`' && name[i] != '/' && name[i] != '\\',
        valid_id(name),
{
    assert(is_queue_char(name[i]));
    assert(is_queue_char(name[0]));
    assert(!is_white_space(name[0]));
}

} // verus!
