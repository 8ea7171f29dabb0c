use file_summarizer::config::{default_log_file, default_output_path, Config};
use file_summarizer::messages::{ChatMessage, MessageContent, Role};
use file_summarizer::scanner::ProcessedFile;
use file_summarizer::summary::{
    build_system_prompt, clamp_percent, plan, summary_request, CompressionTarget, SummaryInput,
    MIN_TARGET_WORDS,
};

fn file(name: &str, content: &str) -> ProcessedFile {
    ProcessedFile { name: name.to_string(), content: content.to_string() }
}

fn plain(message: &ChatMessage) -> &str {
    match &message.content {
        MessageContent::Plain(text) => text,
        MessageContent::Blocks(_) => panic!("expected a plain message"),
    }
}

#[test]
fn aggregate_of_nothing_is_empty() {
    let doc = SummaryInput::from_files(&[]);
    assert_eq!(doc.combined_text, "");
    assert_eq!(doc.total_words, 0);
    assert_eq!(doc.file_count, 0);
}

#[test]
fn aggregate_labels_each_file() {
    let doc = SummaryInput::from_files(&[file("a.txt", "a b c")]);
    assert_eq!(doc.combined_text, "=== File: a.txt ===\na b c\n\n");
    assert_eq!(doc.total_words, 3);
    assert_eq!(doc.file_count, 1);
}

#[test]
fn aggregate_preserves_order() {
    let files = [file("b.md", "second first"), file("a.txt", "one"), file("c.pdf", "")];
    let doc = SummaryInput::from_files(&files);
    assert_eq!(
        doc.combined_text,
        "=== File: b.md ===\nsecond first\n\n=== File: a.txt ===\none\n\n=== File: c.pdf ===\n\n\n"
    );
    let mut offset = 0;
    for f in &files {
        let block = format!("=== File: {} ===\n{}\n\n", f.name, f.content);
        assert_eq!(&doc.combined_text[offset..offset + block.len()], block);
        offset += block.len();
    }
    assert_eq!(offset, doc.combined_text.len());
    assert_eq!(doc.file_count, 3);
}

#[test]
fn total_words_is_the_sum_of_the_files() {
    let files = [
        file("a", "one two  three"),
        file("b", "\n\n"),
        file("c", "четыре пять"),
        file("d", " six "),
    ];
    let doc = SummaryInput::from_files(&files);
    let expected: usize = files.iter().map(|f| f.content.split_whitespace().count()).sum();
    assert_eq!(expected, 6);
    assert_eq!(doc.total_words, 6);
}

#[test]
fn aggregating_again_gives_the_same_document() {
    let files = [file("a.txt", "alpha beta"), file("b.txt", "gamma")];
    let first = SummaryInput::from_files(&files);
    let second = SummaryInput::from_files(&files);
    assert_eq!(first.combined_text, second.combined_text);
    assert_eq!(first.total_words, second.total_words);
    assert_eq!(first.file_count, second.file_count);
}

#[test]
fn plan_of_empty_source_is_the_floor() {
    for percent in 0..=255u8 {
        assert_eq!(plan(0, percent), 50);
    }
    assert_eq!(MIN_TARGET_WORDS, 50);
}

#[test]
fn plan_takes_the_share_of_the_source() {
    assert_eq!(plan(1000, 25), 250);
    assert_eq!(plan(10_000, 1), 100);
    assert_eq!(plan(10_000, 100), 10_000);
}

#[test]
fn plan_rounds_up() {
    assert_eq!(plan(999, 25), 250);
    assert_eq!(plan(5001, 1), 51);
    assert_eq!(plan(5000, 1), 50);
}

#[test]
fn plan_never_goes_under_the_floor() {
    assert_eq!(plan(100, 10), 50);
    assert_eq!(plan(49, 100), 50);
    assert_eq!(plan(51, 100), 51);
}

#[test]
fn plan_is_monotonic_in_percent() {
    for total in [0usize, 1, 49, 50, 51, 999, 1000, 123_456, usize::MAX] {
        let mut previous = plan(total, 0);
        for percent in 1..=255u8 {
            let next = plan(total, percent);
            assert!(previous <= next, "total {total}, percent {percent}");
            previous = next;
        }
    }
}

#[test]
fn plan_clamps_the_percentage() {
    assert_eq!(plan(10_000, 150), plan(10_000, 100));
    assert_eq!(plan(10_000, 150), 10_000);
    assert_eq!(plan(10_000, 0), plan(10_000, 1));
    assert_eq!(plan(10_000, 0), 100);
}

#[test]
fn plan_of_the_largest_source() {
    assert_eq!(plan(usize::MAX, 100), usize::MAX);
    assert_eq!(plan(usize::MAX, 50), usize::MAX / 2 + 1);
}

#[test]
fn target_words_follows_the_plan() {
    let doc = SummaryInput { combined_text: String::new(), total_words: 999, file_count: 1 };
    assert_eq!(doc.target_words(25), 250);
    assert_eq!(doc.target_words(0), 50);
    assert_eq!(doc.target_words(200), 999);
}

#[test]
fn clamp_percent_confines_to_range() {
    assert_eq!(clamp_percent(0), 1);
    assert_eq!(clamp_percent(1), 1);
    assert_eq!(clamp_percent(42), 42);
    assert_eq!(clamp_percent(100), 100);
    assert_eq!(clamp_percent(101), 100);
    assert_eq!(clamp_percent(255), 100);
}

fn config(compress_summary: u8) -> Config {
    Config {
        files_directory: "files".to_string(),
        compress_summary,
        ocr_model: "ocr".to_string(),
        summary_model: "summary".to_string(),
        output_path: default_output_path(),
        log_file: default_log_file(),
    }
}

#[test]
fn configured_percentage_is_clamped() {
    assert_eq!(config(150).compress_percent(), 100);
    assert_eq!(config(0).compress_percent(), 1);
    assert_eq!(config(25).compress_percent(), 25);
}

#[test]
fn configuration_defaults() {
    assert_eq!(default_output_path(), "summary.md");
    assert_eq!(default_log_file(), "app.log");
}

fn expected_system_prompt(total: usize, target: usize, pct: u8) -> String {
    format!(
        "Ты — эксперт по составлению резюме и аналитических сводок. \
         Пользователь предоставит содержимое нескольких файлов. \
         Твоя задача — создать подробное резюме ВСЕХ предоставленных файлов в формате Markdown.\n\n\
         ВАЖНОЕ ОГРАНИЧЕНИЕ: Исходный текст содержит {total} слов. \
         Твоё резюме ДОЛЖНО содержать примерно {target} слов (около {pct}% от оригинала). \
         Считай слова внимательно. НЕ пиши значительно больше или меньше {target} слов.\n\n\
         Резюме должно включать:\n\
         - Главный заголовок\n\
         - Раздел с общим обзором\n\
         - Раздел для каждого файла с его ключевыми тезисами\n\
         - Заключение, объединяющее всё вместе\n\n\
         ОБЯЗАТЕЛЬНО: Отвечай ТОЛЬКО на русском языке. \
         Выводи ТОЛЬКО Markdown-резюме, без лишних комментариев."
    )
}

#[test]
fn system_prompt_embeds_the_numbers() {
    assert_eq!(build_system_prompt(1000, 250, 25), expected_system_prompt(1000, 250, 25));
    assert_eq!(build_system_prompt(0, 50, 1), expected_system_prompt(0, 50, 1));
    let prompt = build_system_prompt(1000, 250, 25);
    assert!(prompt.contains("содержит 1000 слов"));
    assert!(prompt.contains("примерно 250 слов (около 25% от оригинала)"));
    assert!(prompt.contains("меньше 250 слов.\n\nРезюме должно включать:\n- Главный заголовок\n"));
}

#[test]
fn summary_request_has_system_and_user_message() {
    let doc = SummaryInput::from_files(&[file("a.txt", "a b c")]);
    let messages = summary_request(&doc, 25);
    assert_eq!(messages.len(), 2);
    assert_eq!(messages[0].role, Role::System);
    assert_eq!(plain(&messages[0]), expected_system_prompt(3, 50, 25));
    assert_eq!(messages[1].role, Role::User);
    assert_eq!(
        plain(&messages[1]),
        "Пожалуйста, составь резюме следующих файлов:\n\n=== File: a.txt ===\na b c\n\n"
    );
}

#[test]
fn summary_request_shows_the_clamped_percentage() {
    let doc = SummaryInput { combined_text: "x".to_string(), total_words: 2000, file_count: 1 };
    let messages = summary_request(&doc, 150);
    assert_eq!(plain(&messages[0]), expected_system_prompt(2000, 2000, 100));
    let messages = summary_request(&doc, 0);
    assert_eq!(plain(&messages[0]), expected_system_prompt(2000, 50, 1));
}

#[test]
fn compression_target_holds_clamped_percent_and_plan() {
    assert_eq!(
        CompressionTarget::for_source(1000, 25),
        CompressionTarget { percent: 25, target_words: 250 }
    );
    assert_eq!(
        CompressionTarget::for_source(1000, 150),
        CompressionTarget { percent: 100, target_words: 1000 }
    );
    assert_eq!(
        CompressionTarget::for_source(1000, 0),
        CompressionTarget { percent: 1, target_words: 50 }
    );
    assert_eq!(
        CompressionTarget::for_source(0, 60),
        CompressionTarget { percent: 60, target_words: 50 }
    );
}
