use vstd::prelude::*;

verus! {

/// The five kinds of practice question.
#[derive(Debug, Clone, Copy, PartialEq, Eq, Hash, Structural)]
pub enum QuestionType {
    /// Reading Comprehension
    RC,
    /// Sentence Correction
    SC,
    /// Critical Reasoning
    CR,
    /// Problem Solving
    PS,
    /// Data Sufficiency
    DS,
}

/// Whether a kind of question may be drawn. Reading comprehension content has
/// a shape that the renderer cannot handle, so it is never drawn.
pub open spec fn is_supported(t: QuestionType) -> bool {
    t != QuestionType::RC
}

/// The kinds that make up the pool when no kind is asked for, in pool order.
pub open spec fn supported_types() -> Seq<QuestionType> {
    seq![QuestionType::SC, QuestionType::CR, QuestionType::PS, QuestionType::DS]
}

/// The full English name of a kind.
pub open spec fn full_name_of(t: QuestionType) -> Seq<char> {
    match t {
        QuestionType::RC => "Reading Comprehension"@,
        QuestionType::SC => "Sentence Correction"@,
        QuestionType::CR => "Critical Reasoning"@,
        QuestionType::PS => "Problem Solving"@,
        QuestionType::DS => "Data Sufficiency"@,
    }
}

impl QuestionType {
    /// Whether this kind may be drawn at random or on request.
    pub fn is_selectable(&self) -> (r: bool)
        ensures
            r == is_supported(*self),
    {
        !matches!(self, QuestionType::RC)
    }

    /// The full English name, as shown on a rendered question.
    pub fn display_name(&self) -> (r: &'static str)
        ensures
            r@ == full_name_of(*self),
    {
        match self {
            QuestionType::RC => "Reading Comprehension",
            QuestionType::SC => "Sentence Correction",
            QuestionType::CR => "Critical Reasoning",
            QuestionType::PS => "Problem Solving",
            QuestionType::DS => "Data Sufficiency",
        }
    }
}

/// The question bank index: the identifiers of the questions of each kind.
#[derive(Debug)]
pub struct GmatDatabase {
    pub reading_comprehension: Vec<String>,
    pub sentence_correction: Vec<String>,
    pub critical_reasoning: Vec<String>,
    pub problem_solving: Vec<String>,
    pub data_sufficiency: Vec<String>,
}

/// Pairs each identifier of `ids` with the kind `t`, in order.
pub open spec fn tagged(t: QuestionType, ids: Seq<String>) -> Seq<(QuestionType, Seq<char>)> {
    Seq::new(ids.len(), |i: int| (t, ids[i]@))
}

/// The abstract value of a list of drawn questions.
pub open spec fn refs_view(v: Seq<(QuestionType, String)>) -> Seq<(QuestionType, Seq<char>)> {
    Seq::new(v.len(), |i: int| (v[i].0, v[i].1@))
}

impl GmatDatabase {
    /// The identifiers of the questions of kind `t`.
    pub open spec fn questions_of(&self, t: QuestionType) -> Vec<String> {
        match t {
            QuestionType::RC => self.reading_comprehension,
            QuestionType::SC => self.sentence_correction,
            QuestionType::CR => self.critical_reasoning,
            QuestionType::PS => self.problem_solving,
            QuestionType::DS => self.data_sufficiency,
        }
    }

    /// The number of questions of all kinds, unsupported ones included.
    pub open spec fn total_count(&self) -> nat {
        self.reading_comprehension@.len() + self.sentence_correction@.len()
            + self.critical_reasoning@.len() + self.problem_solving@.len()
            + self.data_sufficiency@.len()
    }

    /// The pool a draw is made from: the questions of the kind asked for, or,
    /// with no kind, those of every supported kind one after the other.
    pub open spec fn pool(&self, filter: Option<QuestionType>) -> Seq<(QuestionType, Seq<char>)> {
        match filter {
            Some(t) => tagged(t, self.questions_of(t)@),
            None => tagged(QuestionType::SC, self.sentence_correction@) + tagged(
                QuestionType::CR,
                self.critical_reasoning@,
            ) + tagged(QuestionType::PS, self.problem_solving@) + tagged(
                QuestionType::DS,
                self.data_sufficiency@,
            ),
        }
    }

    pub fn get_questions_by_type(&self, question_type: &QuestionType) -> (r: &Vec<String>)
        ensures
            *r == self.questions_of(*question_type),
    {
        match question_type {
            QuestionType::RC => &self.reading_comprehension,
            QuestionType::SC => &self.sentence_correction,
            QuestionType::CR => &self.critical_reasoning,
            QuestionType::PS => &self.problem_solving,
            QuestionType::DS => &self.data_sufficiency,
        }
    }

    /// The identifier lists of the supported kinds, in pool order.
    pub fn get_all_questions(&self) -> (r: Vec<(QuestionType, &Vec<String>)>)
        ensures
            r@.len() == supported_types().len(),
            forall|i: int|
                0 <= i < r@.len() ==> r@[i].0 == supported_types()[i] && *r@[i].1
                    == self.questions_of(supported_types()[i]),
    {
        let mut all_questions: Vec<(QuestionType, &Vec<String>)> = Vec::new();
        all_questions.push((QuestionType::SC, &self.sentence_correction));
        all_questions.push((QuestionType::CR, &self.critical_reasoning));
        all_questions.push((QuestionType::PS, &self.problem_solving));
        all_questions.push((QuestionType::DS, &self.data_sufficiency));
        all_questions
    }

    /// The number of questions of all kinds. The count must fit in a `usize`.
    pub fn total_questions(&self) -> (r: usize)
        requires
            self.total_count() <= usize::MAX,
        ensures
            r == self.total_count(),
    {
        self.reading_comprehension.len() + self.sentence_correction.len()
            + self.critical_reasoning.len() + self.problem_solving.len()
            + self.data_sufficiency.len()
    }
}

} // verus!
