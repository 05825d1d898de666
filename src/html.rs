use vstd::prelude::*;

use crate::catalog::{full_name_of, QuestionType};
use crate::text::{decimal, decimal_string};

verus! {

/// A question as the content source serves it.
#[derive(Debug)]
pub struct QuestionContent {
    pub id: String,
    pub src: String,
    pub explanations: Vec<String>,
    /// The kind that the content declares; shown nowhere, and not trusted.
    pub question_type: String,
    pub question: String,
    pub answers: Vec<String>,
}

/// The abstract value of a list of strings.
pub open spec fn strings_view(v: Seq<String>) -> Seq<Seq<char>> {
    Seq::new(v.len(), |i: int| v[i]@)
}

/// The page up to the question identifier in its title.
pub const PAGE_HEAD: &'static str = "
<!DOCTYPE html>
<html lang=\"en\">
<head>
    <meta charset=\"UTF-8\">
    <meta name=\"viewport\" content=\"width=device-width, initial-scale=1.0\">
    <title>GMAT Question ";

/// From the title to the question identifier in the header: scripts and style sheet.
pub const PAGE_STYLE: &'static str = "</title>
    <script>
        // Set initial window status
        window.status = 'loading';
        
        // Function to set ready status
        function setReady() {
            window.status = 'ready_to_print';
            console.log('Page is ready for printing');
        }
        
        // Configure MathJax
        window.MathJax = {
            startup: {
                ready: function() {
                    // When MathJax is ready, set the page as ready
                    MathJax.startup.defaultReady().then(function() {
                        console.log('MathJax rendering complete');
                        setReady();
                    });
                }
            }
        };
        
        // Fallback in case MathJax fails to load
        setTimeout(setReady, 3000);
    </script>
    <script id=\"MathJax-script\" async src=\"https://cdn.jsdelivr.net/npm/mathjax@3/es5/tex-mml-chtml.js\"></script>
    <style>
        body {
            font-family: Georgia, 'Times New Roman', Times, serif;
            max-width: 1000px;
            margin: 0 auto;
            padding: 30px;
            line-height: 1.6;
            background-color: #ffffff;
            color: #333;
        }

        .question-header {
            background: #0068ff;
            color: white;
            padding: 25px;
            border-radius: 8px;
            margin-bottom: 30px;
        }

        .question-id {
            font-size: 1.1em;
            font-weight: 600;
            opacity: 0.9;
            margin-bottom: 5px;
        }

        .question-type {
            font-size: 1.8em;
            font-weight: 700;
            margin: 0;
        }

        .question-content {
            background: white;
            padding: 30px;
            margin-bottom: 25px;
        }

        .question-text {
            font-size: 1.2em;
            line-height: 1.7;
            margin-bottom: 25px;
            color: #2c3e50;
        }

        .answers-section {
            background: #f9f9f9;
            padding: 25px;
            margin-bottom: 25px;
        }

        .answers-section h3 {
            color: #0068ff;
            margin-top: 0;
            margin-bottom: 20px;
            font-size: 1.3em;
        }

        .answer-option {
            padding: 12px 15px;
            margin: 8px 0;
            background: white;
            font-size: 1.1em;
        }

        .explanations-section {
            background: white;
            padding: 25px;
        }

        .explanations-section h3 {
            color: #0068ff;
            margin-top: 0;
            margin-bottom: 20px;
            font-size: 1.3em;
        }

        .explanation {
            margin-bottom: 25px;
            padding: 20px;
            background: #f9f9f9;
        }

        .explanation h4 {
            color: #0068ff;
            margin-top: 0;
            margin-bottom: 15px;
        }

        .source-link {
            margin-top: 30px;
            padding: 15px;
            background: #f9f9f9;
            font-size: 0.9em;
        }

        .source-link a {
            color: #0068ff;
            text-decoration: none;
        }

        .source-link a:hover {
            text-decoration: underline;
        }

        /* LaTeX Math styling */
        .MathJax {
            font-size: 1.1em !important;
        }

        /* Table styling for better readability */
        table {
            border-collapse: collapse;
            width: 100%;
            margin: 15px 0;
        }

        th, td {
            padding: 12px;
            text-align: left;
            border-bottom: 1px solid #eee;
        }

        th {
            background-color: #f9f9f9;
            font-weight: bold;
        }

        /* List styling */
        ul, ol {
            padding-left: 25px;
        }

        li {
            margin: 8px 0;
        }

        /* Code blocks */
        code {
            background-color: #f9f9f9;
            padding: 2px 6px;
            font-family: 'Courier New', monospace;
        }

        /* Emphasis */
        strong {
            color: #2c3e50;
        }

        em {
            color: #7f8c8d;
        }
    </style>
</head>
<body>
    <div class=\"question-header\">
        <div class=\"question-id\">Question ID: ";

/// Between the identifier and the kind of question in the header.
pub const PAGE_TYPE_OPEN: &'static str = "</div>
        <h1 class=\"question-type\">";

/// Between the kind of question and the question text.
pub const PAGE_QUESTION_OPEN: &'static str = "</h1>
    </div>

    <div class=\"question-content\">
        <div class=\"question-text\">
            ";

/// Between the question text and the answer choices.
pub const PAGE_AFTER_QUESTION: &'static str = "
        </div>

        ";

/// Between the answer choices and the explanations.
pub const PAGE_BETWEEN_SECTIONS: &'static str = "

        ";

/// Between the explanations and the source link target.
pub const PAGE_SOURCE_OPEN: &'static str = "
    </div>

    <div class=\"source-link\">
        <strong>Source:</strong> <a href=\"";

/// Between the source link target and its text.
pub const PAGE_SOURCE_MIDDLE: &'static str = "\" target=\"_blank\">";

/// The end of the page.
pub const PAGE_TAIL: &'static str = "</a>
    </div>
</body>
</html>
    ";

/// The opening of the answer choices section.
pub const ANSWERS_OPEN: &'static str = "
        <div class=\"answers-section\">
            <h3>Answer Choices:</h3>
            ";

/// The opening of the explanations section.
pub const EXPLANATIONS_OPEN: &'static str = "
        <div class=\"explanations-section\">
            <h3>Explanations:</h3>
            ";

/// The end of a section.
pub const SECTION_CLOSE: &'static str = "
        </div>
        ";

/// The lines `s`, joined by line breaks.
pub open spec fn join_lines(s: Seq<Seq<char>>) -> Seq<char>
    decreases s.len(),
{
    if s.len() == 0 {
        Seq::empty()
    } else if s.len() == 1 {
        s[0]
    } else {
        join_lines(s.drop_last()) + "\n"@ + s.last()
    }
}

/// The label of the answer choice at position `i`: a letter for the first
/// five, then the position counted from one.
pub open spec fn answer_label(i: nat) -> Seq<char> {
    if i == 0 {
        "A"@
    } else if i == 1 {
        "B"@
    } else if i == 2 {
        "C"@
    } else if i == 3 {
        "D"@
    } else if i == 4 {
        "E"@
    } else {
        decimal(i + 1)
    }
}

/// The markup of the answer choice `a` at position `i`.
pub open spec fn answer_line(i: nat, a: Seq<char>) -> Seq<char> {
    "<div class=\"answer-option\"><strong>"@ + answer_label(i) + ")</strong> "@ + a + "</div>"@
}

/// The markup of the explanation `e` at position `i`.
pub open spec fn explanation_line(i: nat, e: Seq<char>) -> Seq<char> {
    "<div class=\"explanation\"><h4>Explanation "@ + decimal(i + 1) + ":</h4>"@ + e + "</div>"@
}

/// The answer choices section; empty when there are no choices.
pub open spec fn answers_html(answers: Seq<Seq<char>>) -> Seq<char> {
    if answers.len() == 0 {
        Seq::empty()
    } else {
        ANSWERS_OPEN@ + join_lines(Seq::new(answers.len(), |i: int| answer_line(i as nat, answers[i])))
            + SECTION_CLOSE@
    }
}

/// The explanations section; empty when it is not asked for or there are no
/// explanations.
pub open spec fn explanations_html(show: bool, explanations: Seq<Seq<char>>) -> Seq<char> {
    if !show || explanations.len() == 0 {
        Seq::empty()
    } else {
        EXPLANATIONS_OPEN@ + join_lines(
            Seq::new(explanations.len(), |i: int| explanation_line(i as nat, explanations[i])),
        ) + SECTION_CLOSE@
    }
}

/// The page that shows the question `c` of kind `t`, with its explanations
/// when `show` holds.
pub open spec fn question_page(c: QuestionContent, t: QuestionType, show: bool) -> Seq<char> {
    PAGE_HEAD@ + c.id@ + PAGE_STYLE@ + c.id@ + PAGE_TYPE_OPEN@ + full_name_of(t)
        + PAGE_QUESTION_OPEN@ + c.question@ + PAGE_AFTER_QUESTION@ + answers_html(
        strings_view(c.answers@),
    ) + PAGE_BETWEEN_SECTIONS@ + explanations_html(show, strings_view(c.explanations@))
        + PAGE_SOURCE_OPEN@ + c.src@ + PAGE_SOURCE_MIDDLE@ + c.src@ + PAGE_TAIL@
}

/// The label of the answer choice at position `i`.
fn answer_label_string(i: usize) -> (r: String)
    requires
        i < usize::MAX,
    ensures
        r@ == answer_label(i as nat),
{
    proof {
        reveal_strlit("A");
        reveal_strlit("B");
        reveal_strlit("C");
        reveal_strlit("D");
        reveal_strlit("E");
    }
    if i == 0 {
        String::from_str("A")
    } else if i == 1 {
        String::from_str("B")
    } else if i == 2 {
        String::from_str("C")
    } else if i == 3 {
        String::from_str("D")
    } else if i == 4 {
        String::from_str("E")
    } else {
        decimal_string(i as u64 + 1)
    }
}

/// The markup of the answer choice `a` at position `i`.
fn answer_line_string(i: usize, a: &String) -> (r: String)
    requires
        i < usize::MAX,
    ensures
        r@ == answer_line(i as nat, a@),
{
    let mut s = String::from_str("<div class=\"answer-option\"><strong>");
    let label = answer_label_string(i);
    s.append(label.as_str());
    s.append(")</strong> ");
    s.append(a.as_str());
    s.append("</div>");
    s
}

/// The markup of the explanation `e` at position `i`.
fn explanation_line_string(i: usize, e: &String) -> (r: String)
    requires
        i < usize::MAX,
    ensures
        r@ == explanation_line(i as nat, e@),
{
    let mut s = String::from_str("<div class=\"explanation\"><h4>Explanation ");
    let number = decimal_string(i as u64 + 1);
    s.append(number.as_str());
    s.append(":</h4>");
    s.append(e.as_str());
    s.append("</div>");
    s
}

/// The answer choices section.
fn answers_section(answers: &Vec<String>) -> (r: String)
    ensures
        r@ == answers_html(strings_view(answers@)),
{
    if answers.len() == 0 {
        return String::new();
    }
    let ghost lines = Seq::new(
        answers@.len(),
        |i: int| answer_line(i as nat, strings_view(answers@)[i]),
    );
    let mut body = String::new();
    let mut i: usize = 0;
    while i < answers.len()
        invariant
            i <= answers@.len(),
            lines.len() == answers@.len(),
            forall|k: int| 0 <= k < lines.len() ==> #[trigger] lines[k] == answer_line(k as nat, answers@[k]@),
            body@ == join_lines(lines.subrange(0, i as int)),
        decreases answers@.len() - i,
    {
        let line = answer_line_string(i, &answers[i]);
        proof {
            let next = lines.subrange(0, i + 1);
            assert(next.drop_last() =~= lines.subrange(0, i as int));
        }
        if i > 0 {
            body.append("\n");
        }
        body.append(line.as_str());
        i = i + 1;
    }
    proof {
        assert(lines.subrange(0, answers@.len() as int) =~= lines);
        assert(lines =~= Seq::new(
            strings_view(answers@).len(),
            |i: int| answer_line(i as nat, strings_view(answers@)[i]),
        ));
    }
    let mut s = String::from_str(ANSWERS_OPEN);
    s.append(body.as_str());
    s.append(SECTION_CLOSE);
    s
}

/// The explanations section.
fn explanations_section(show: bool, explanations: &Vec<String>) -> (r: String)
    ensures
        r@ == explanations_html(show, strings_view(explanations@)),
{
    if !show || explanations.len() == 0 {
        return String::new();
    }
    let ghost lines = Seq::new(
        explanations@.len(),
        |i: int| explanation_line(i as nat, strings_view(explanations@)[i]),
    );
    let mut body = String::new();
    let mut i: usize = 0;
    while i < explanations.len()
        invariant
            i <= explanations@.len(),
            lines.len() == explanations@.len(),
            forall|k: int| 0 <= k < lines.len() ==> #[trigger] lines[k] == explanation_line(k as nat, explanations@[k]@),
            body@ == join_lines(lines.subrange(0, i as int)),
        decreases explanations@.len() - i,
    {
        let line = explanation_line_string(i, &explanations[i]);
        proof {
            let next = lines.subrange(0, i + 1);
            assert(next.drop_last() =~= lines.subrange(0, i as int));
        }
        if i > 0 {
            body.append("\n");
        }
        body.append(line.as_str());
        i = i + 1;
    }
    proof {
        assert(lines.subrange(0, explanations@.len() as int) =~= lines);
        assert(lines =~= Seq::new(
            strings_view(explanations@).len(),
            |i: int| explanation_line(i as nat, strings_view(explanations@)[i]),
        ));
    }
    let mut s = String::from_str(EXPLANATIONS_OPEN);
    s.append(body.as_str());
    s.append(SECTION_CLOSE);
    s
}

/// The page that shows `content` as a question of kind `question_type`, with
/// its explanations when `show_explanations` holds.
pub fn generate_html_content_impl(
    content: &QuestionContent,
    question_type: &QuestionType,
    show_explanations: bool,
) -> (r: String)
    ensures
        r@ == question_page(*content, *question_type, show_explanations),
{
    let answers = answers_section(&content.answers);
    let explanations = explanations_section(show_explanations, &content.explanations);
    let mut s = String::from_str(PAGE_HEAD);
    s.append(content.id.as_str());
    s.append(PAGE_STYLE);
    s.append(content.id.as_str());
    s.append(PAGE_TYPE_OPEN);
    s.append(question_type.display_name());
    s.append(PAGE_QUESTION_OPEN);
    s.append(content.question.as_str());
    s.append(PAGE_AFTER_QUESTION);
    s.append(answers.as_str());
    s.append(PAGE_BETWEEN_SECTIONS);
    s.append(explanations.as_str());
    s.append(PAGE_SOURCE_OPEN);
    s.append(content.src.as_str());
    s.append(PAGE_SOURCE_MIDDLE);
    s.append(content.src.as_str());
    s.append(PAGE_TAIL);
    s
}

/// The page of `content` without explanations.
pub fn generate_html_content_without_explanations(
    content: &QuestionContent,
    question_type: &QuestionType,
) -> (r: String)
    ensures
        r@ == question_page(*content, *question_type, false),
{
    generate_html_content_impl(content, question_type, false)
}

/// The page of `content` with its explanations.
pub fn generate_html_content(content: &QuestionContent, question_type: &QuestionType) -> (r:
    String)
    ensures
        r@ == question_page(*content, *question_type, true),
{
    generate_html_content_impl(content, question_type, true)
}

} // verus!
