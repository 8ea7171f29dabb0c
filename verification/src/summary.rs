//! Aggregation of the extracted files into one labeled document, the
//! target length of its summary, and the request that asks for it.

use vstd::prelude::*;
use vstd::string::*;
use crate::messages::{ChatMessage, MessageContent, Role};
use crate::scanner::ProcessedFile;
use crate::text::{count_words, decimal, decimal_string, word_count};

verus! {

/// The fewest words a summary is asked to have.
pub const MIN_TARGET_WORDS: usize = 50;

/// A percentage, confined to the range from 1 to 100.
pub open spec fn clamped_percent(percent: int) -> int {
    if percent < 1 {
        1
    } else if percent > 100 {
        100
    } else {
        percent
    }
}

/// The target length of a summary: the given percentage of the source's
/// words, rounded up, and never under [`MIN_TARGET_WORDS`].
pub open spec fn planned_words(total_words: nat, percent: int) -> nat {
    let scaled = (total_words * clamped_percent(percent) + 99) / 100;
    if scaled < MIN_TARGET_WORDS {
        MIN_TARGET_WORDS as nat
    } else {
        scaled as nat
    }
}

/// Confines a percentage to the range from 1 to 100.
pub fn clamp_percent(percent: u8) -> (clamped: u8)
    ensures
        clamped == clamped_percent(percent as int),
{
    if percent < 1 {
        1
    } else if percent > 100 {
        100
    } else {
        percent
    }
}

/// Converts a compression percentage into a target word count.
pub fn plan(total_words: usize, percent: u8) -> (target: usize)
    ensures
        target == planned_words(total_words as nat, percent as int),
{
    let share: u128 = clamp_percent(percent) as u128;
    let total: u128 = total_words as u128;
    assert(total * share <= total * 100) by (nonlinear_arith)
        requires
            0 <= share <= 100,
            0 <= total,
    ;
    let scaled: u128 = (total * share + 99) / 100;
    if scaled < 50 {
        MIN_TARGET_WORDS
    } else {
        scaled as usize
    }
}

/// A compression percentage together with the summary length it asks for.
#[derive(Clone, Copy, Debug, PartialEq, Eq, Structural)]
pub struct CompressionTarget {
    pub percent: u8,
    pub target_words: usize,
}

impl CompressionTarget {
    /// A percentage from 1 to 100 and a length of at least the floor.
    pub open spec fn well_formed(&self) -> bool {
        &&& 1 <= self.percent <= 100
        &&& self.target_words >= MIN_TARGET_WORDS
    }

    /// Whether this is the target for a source of `total_words` words
    /// under the requested percentage.
    pub open spec fn plans(&self, total_words: nat, percent: int) -> bool {
        &&& self.percent == clamped_percent(percent)
        &&& self.target_words == planned_words(total_words, percent)
    }

    /// The target for a source of `total_words` words: the percentage,
    /// clamped, and the length planned for it.
    pub fn for_source(total_words: usize, percent: u8) -> (target: Self)
        ensures
            target.plans(total_words as nat, percent as int),
            target.well_formed(),
    {
        CompressionTarget {
            percent: clamp_percent(percent),
            target_words: plan(total_words, percent),
        }
    }
}

/// With nothing to summarize the floor decides, whatever the percentage.
pub proof fn lemma_plan_of_empty_source(percent: int)
    ensures
        planned_words(0, percent) == MIN_TARGET_WORDS,
{
}

/// A percentage outside the range from 1 to 100 plans as the nearest
/// percentage inside it.
pub proof fn lemma_plan_uses_clamped_percent(total_words: nat, percent: int)
    ensures
        planned_words(total_words, percent) == planned_words(
            total_words,
            clamped_percent(percent),
        ),
        percent > 100 ==> planned_words(total_words, percent) == planned_words(total_words, 100),
        percent < 1 ==> planned_words(total_words, percent) == planned_words(total_words, 1),
{
}

/// A larger percentage never asks for a shorter summary.
pub proof fn lemma_plan_monotonic(total_words: nat, lower: int, higher: int)
    requires
        lower <= higher,
    ensures
        planned_words(total_words, lower) <= planned_words(total_words, higher),
{
    let a = clamped_percent(lower);
    let b = clamped_percent(higher);
    assert(total_words * a <= total_words * b) by (nonlinear_arith)
        requires
            a <= b,
            total_words >= 0,
    ;
    vstd::arithmetic::div_mod::lemma_div_is_ordered(
        total_words * a + 99,
        total_words * b + 99,
        100,
    );
}

/// The target is at least the floor, and beyond the floor never exceeds
/// the source.
pub proof fn lemma_plan_bounds(total_words: nat, percent: int)
    ensures
        planned_words(total_words, percent) >= MIN_TARGET_WORDS,
        planned_words(total_words, percent) <= total_words || planned_words(total_words, percent)
            == MIN_TARGET_WORDS,
{
    let share = clamped_percent(percent);
    assert(total_words * share <= total_words * 100) by (nonlinear_arith)
        requires
            0 <= share <= 100,
            total_words >= 0,
    ;
}

/// The labeled block that one file contributes to the combined document.
pub open spec fn block_of(name: Seq<char>, content: Seq<char>) -> Seq<char> {
    "=== File: "@ + name + " ===\n"@ + content + "\n\n"@
}

/// The blocks of the first `n` files, one after another.
pub open spec fn combined_prefix(files: Seq<ProcessedFile>, n: nat) -> Seq<char>
    decreases n,
{
    if n == 0 {
        Seq::empty()
    } else {
        combined_prefix(files, (n - 1) as nat) + block_of(
            files[n - 1].name@,
            files[n - 1].content@,
        )
    }
}

/// The combined document: every file's block, in the order of the list.
pub open spec fn combined_document(files: Seq<ProcessedFile>) -> Seq<char> {
    combined_prefix(files, files.len())
}

/// The words of the first `n` files.
pub open spec fn words_in_prefix(files: Seq<ProcessedFile>, n: nat) -> nat
    decreases n,
{
    if n == 0 {
        0
    } else {
        words_in_prefix(files, (n - 1) as nat) + word_count(files[n - 1].content@)
    }
}

/// The sum of the files' whitespace-delimited token counts.
pub open spec fn document_words(files: Seq<ProcessedFile>) -> nat {
    words_in_prefix(files, files.len())
}

/// A count as a machine word can hold it: itself, or the largest value
/// where it does not fit.
pub open spec fn saturated(n: nat) -> usize {
    if n <= usize::MAX {
        n as usize
    } else {
        usize::MAX
    }
}

/// Combines file contents into a single document and computes word statistics.
#[derive(Clone, Debug)]
pub struct SummaryInput {
    pub combined_text: String,
    pub total_words: usize,
    pub file_count: usize,
}

impl SummaryInput {
    /// Whether this is the document that aggregating `files` gives.
    pub open spec fn aggregates(&self, files: Seq<ProcessedFile>) -> bool {
        &&& self.combined_text@ == combined_document(files)
        &&& self.total_words == saturated(document_words(files))
        &&& self.file_count == files.len()
    }

    /// Builds the combined text from processed files.
    pub fn from_files(files: &[ProcessedFile]) -> (document: Self)
        ensures
            document.aggregates(files@),
    {
        let mut combined = String::new();
        let mut total_words: usize = 0;
        let mut i: usize = 0;
        while i < files.len()
            invariant
                i <= files.len(),
                combined@ == combined_prefix(files@, i as nat),
                total_words == saturated(words_in_prefix(files@, i as nat)),
            decreases files.len() - i,
        {
            let file = &files[i];
            let words = count_words(file.content.as_str());
            total_words = if words > usize::MAX - total_words {
                usize::MAX
            } else {
                total_words + words
            };
            combined.append("=== File: ");
            combined.append(file.name.as_str());
            combined.append(" ===\n");
            combined.append(file.content.as_str());
            combined.append("\n\n");
            i += 1;
            assert(combined@ =~= combined_prefix(files@, i as nat));
        }
        SummaryInput { combined_text: combined, total_words, file_count: files.len() }
    }

    /// Calculates the target word count based on the compression percent.
    pub fn target_words(&self, compress_pct: u8) -> (target: usize)
        ensures
            target == planned_words(self.total_words as nat, compress_pct as int),
    {
        plan(self.total_words, compress_pct)
    }
}

/// Where the block of file `n` begins in the combined document.
pub open spec fn block_offset(files: Seq<ProcessedFile>, n: nat) -> nat {
    combined_prefix(files, n).len()
}

/// Aggregation preserves order: the block of the `n`-th file stands in the
/// combined document right after the blocks of the files before it.
pub proof fn lemma_aggregate_preserves_order(files: Seq<ProcessedFile>, n: nat)
    requires
        n < files.len(),
    ensures
        block_offset(files, n + 1) == block_offset(files, n) + block_of(
            files[n as int].name@,
            files[n as int].content@,
        ).len(),
        block_offset(files, n + 1) <= combined_document(files).len(),
        combined_document(files).subrange(
            block_offset(files, n) as int,
            block_offset(files, n + 1) as int,
        ) == block_of(files[n as int].name@, files[n as int].content@),
{
    lemma_prefix_of_document(files, n + 1, files.len());
    let whole = combined_document(files);
    let upto = combined_prefix(files, n + 1);
    let before = combined_prefix(files, n);
    let block = block_of(files[n as int].name@, files[n as int].content@);
    assert(upto == before + block);
    assert(whole.subrange(0, upto.len() as int) == upto);
    assert(upto.subrange(before.len() as int, upto.len() as int) =~= block);
    assert(whole.subrange(before.len() as int, upto.len() as int) =~= whole.subrange(
        0,
        upto.len() as int,
    ).subrange(before.len() as int, upto.len() as int));
}

/// The document of fewer files is a prefix of the document of more.
pub proof fn lemma_prefix_of_document(files: Seq<ProcessedFile>, shorter: nat, longer: nat)
    requires
        shorter <= longer,
    ensures
        combined_prefix(files, shorter).len() <= combined_prefix(files, longer).len(),
        combined_prefix(files, longer).subrange(0, combined_prefix(files, shorter).len() as int)
            == combined_prefix(files, shorter),
    decreases longer,
{
    if shorter == longer {
        assert(combined_prefix(files, longer).subrange(
            0,
            combined_prefix(files, shorter).len() as int,
        ) =~= combined_prefix(files, shorter));
    } else {
        lemma_prefix_of_document(files, shorter, (longer - 1) as nat);
        assert(combined_prefix(files, longer).subrange(
            0,
            combined_prefix(files, shorter).len() as int,
        ) =~= combined_prefix(files, shorter));
    }
}

/// The total is the sum of the per-file counts: one more file adds its own
/// count, and no files give zero.
pub proof fn lemma_total_words_is_sum(files: Seq<ProcessedFile>, last: ProcessedFile)
    ensures
        document_words(Seq::<ProcessedFile>::empty()) == 0,
        document_words(files.push(last)) == document_words(files) + word_count(last.content@),
{
    lemma_words_depend_on_prefix(files.push(last), files, files.len());
}

/// The words of the first `n` files depend on those files alone.
pub proof fn lemma_words_depend_on_prefix(a: Seq<ProcessedFile>, b: Seq<ProcessedFile>, n: nat)
    requires
        n <= a.len(),
        n <= b.len(),
        forall|i: int| 0 <= i < n ==> a[i] == b[i],
    ensures
        words_in_prefix(a, n) == words_in_prefix(b, n),
    decreases n,
{
    if n > 0 {
        lemma_words_depend_on_prefix(a, b, (n - 1) as nat);
    }
}

/// Aggregating the same list again gives the same document.
pub proof fn lemma_aggregate_is_repeatable(
    first: SummaryInput,
    second: SummaryInput,
    files: Seq<ProcessedFile>,
)
    requires
        first.aggregates(files),
        second.aggregates(files),
    ensures
        first.combined_text@ == second.combined_text@,
        first.total_words == second.total_words,
        first.file_count == second.file_count,
{
}

/// The system instruction up to the source's word count.
pub const PROMPT_OPENING: &'static str =
    "Ты — эксперт по составлению резюме и аналитических сводок. \
Пользователь предоставит содержимое нескольких файлов. \
Твоя задача — создать подробное резюме ВСЕХ предоставленных файлов в формате Markdown.\n\n\
ВАЖНОЕ ОГРАНИЧЕНИЕ: Исходный текст содержит ";

/// The system instruction between the source's word count and the target.
pub const PROMPT_BEFORE_TARGET: &'static str = " слов. Твоё резюме ДОЛЖНО содержать примерно ";

/// The system instruction between the target and the percentage.
pub const PROMPT_BEFORE_PERCENT: &'static str = " слов (около ";

/// The system instruction between the percentage and the repeated target.
pub const PROMPT_BEFORE_REMINDER: &'static str =
    "% от оригинала). \
Считай слова внимательно. НЕ пиши значительно больше или меньше ";

/// The rest of the system instruction: the required structure and the
/// language of the answer.
pub const PROMPT_CLOSING: &'static str =
    " слов.\n\n\
Резюме должно включать:\n\
- Главный заголовок\n\
- Раздел с общим обзором\n\
- Раздел для каждого файла с его ключевыми тезисами\n\
- Заключение, объединяющее всё вместе\n\n\
ОБЯЗАТЕЛЬНО: Отвечай ТОЛЬКО на русском языке. \
Выводи ТОЛЬКО Markdown-резюме, без лишних комментариев.";

/// What precedes the combined document in the user message.
pub const USER_PREAMBLE: &'static str = "Пожалуйста, составь резюме следующих файлов:\n\n";

/// The system instruction for a source of `total_words` words that is to
/// be summarized in `target` words, `percent` percent of it.
pub open spec fn system_prompt(total_words: nat, target: nat, percent: nat) -> Seq<char> {
    PROMPT_OPENING@ + decimal(total_words) + PROMPT_BEFORE_TARGET@ + decimal(target)
        + PROMPT_BEFORE_PERCENT@ + decimal(percent) + PROMPT_BEFORE_REMINDER@ + decimal(target)
        + PROMPT_CLOSING@
}

/// The user message that carries the combined document.
pub open spec fn user_prompt(combined_text: Seq<char>) -> Seq<char> {
    USER_PREAMBLE@ + combined_text
}

/// A system instruction followed by one user message, both plain.
pub open spec fn is_summary_request(
    messages: Seq<ChatMessage>,
    system: Seq<char>,
    user: Seq<char>,
) -> bool {
    &&& messages.len() == 2
    &&& messages[0].role == Role::System
    &&& messages[0].content matches MessageContent::Plain(text)
    &&& text@ == system
    &&& messages[1].role == Role::User
    &&& messages[1].content matches MessageContent::Plain(text)
    &&& text@ == user
}

/// Builds the system instruction that fixes the summary's length and form.
pub fn build_system_prompt(total_words: usize, target: usize, percent: u8) -> (prompt: String)
    ensures
        prompt@ == system_prompt(total_words as nat, target as nat, percent as nat),
{
    let target_text = decimal_string(target);
    let mut prompt = String::from_str(PROMPT_OPENING);
    prompt.append(decimal_string(total_words).as_str());
    prompt.append(PROMPT_BEFORE_TARGET);
    prompt.append(target_text.as_str());
    prompt.append(PROMPT_BEFORE_PERCENT);
    prompt.append(decimal_string(percent as usize).as_str());
    prompt.append(PROMPT_BEFORE_REMINDER);
    prompt.append(target_text.as_str());
    prompt.append(PROMPT_CLOSING);
    prompt
}

/// Builds the request for the summary of `input`: the system instruction
/// with the planned length for the clamped percentage, then the document
/// itself as the user's message.
pub fn summary_request(input: &SummaryInput, compress_pct: u8) -> (messages: Vec<ChatMessage>)
    ensures
        is_summary_request(
            messages@,
            system_prompt(
                input.total_words as nat,
                planned_words(input.total_words as nat, compress_pct as int),
                clamped_percent(compress_pct as int) as nat,
            ),
            user_prompt(input.combined_text@),
        ),
{
    let target = CompressionTarget::for_source(input.total_words, compress_pct);
    let system = build_system_prompt(input.total_words, target.target_words, target.percent);
    let mut user = String::from_str(USER_PREAMBLE);
    user.append(input.combined_text.as_str());
    vec![
        ChatMessage { role: Role::System, content: MessageContent::Plain(system) },
        ChatMessage { role: Role::User, content: MessageContent::Plain(user) },
    ]
}

} // verus!
