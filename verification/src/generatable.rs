use vstd::prelude::*;

verus! {

/// Traits split into two groups for generation: transparent traits are
/// simply derived (e.g. `derive(Debug)`); irregular traits need a custom
/// implementation to be generated.
pub enum GeneratableTrait<TransparentTrait, IrregularTrait> {
    Transparent(TransparentTrait),
    Irregular(IrregularTrait),
}

pub struct GeneratableTraits<TransparentTrait, IrregularTrait> {
    pub transparent_traits: Vec<TransparentTrait>,
    pub irregular_traits: Vec<IrregularTrait>,
}

/// A typed trait knows in which group it is generated.
pub trait ToGeneratable<TransparentTrait, IrregularTrait>: Sized {
    spec fn spec_generatable(&self) -> GeneratableTrait<TransparentTrait, IrregularTrait>;

    fn to_generatable(&self) -> (r: GeneratableTrait<TransparentTrait, IrregularTrait>)
        ensures
            r == self.spec_generatable(),
    ;
}

/// The transparent traits of a list of typed traits, in order.
pub open spec fn spec_transparent_of<I: ToGeneratable<T, R>, T, R>(input: Seq<I>) -> Seq<T>
    decreases input.len(),
{
    if input.len() == 0 {
        Seq::empty()
    } else {
        let rest = spec_transparent_of::<I, T, R>(input.drop_last());
        match input.last().spec_generatable() {
            GeneratableTrait::Transparent(t) => rest.push(t),
            GeneratableTrait::Irregular(_) => rest,
        }
    }
}

/// The irregular traits of a list of typed traits, in order.
pub open spec fn spec_irregular_of<I: ToGeneratable<T, R>, T, R>(input: Seq<I>) -> Seq<R>
    decreases input.len(),
{
    if input.len() == 0 {
        Seq::empty()
    } else {
        let rest = spec_irregular_of::<I, T, R>(input.drop_last());
        match input.last().spec_generatable() {
            GeneratableTrait::Transparent(_) => rest,
            GeneratableTrait::Irregular(t) => rest.push(t),
        }
    }
}

/// Splits typed traits into the traits to derive and the traits to
/// implement, keeping the order of the input in each group.
pub fn split_into_generatable_traits<I, T, R>(input_traits: Vec<I>) -> (r: GeneratableTraits<T, R>)
    where
        I: ToGeneratable<T, R>,
    ensures
        r.transparent_traits@ == spec_transparent_of::<I, T, R>(input_traits@),
        r.irregular_traits@ == spec_irregular_of::<I, T, R>(input_traits@),
{
    let mut transparent_traits: Vec<T> = Vec::new();
    let mut irregular_traits: Vec<R> = Vec::new();
    let n = input_traits.len();
    let mut i: usize = 0;
    while i < n
        invariant
            n == input_traits@.len(),
            i <= n,
            transparent_traits@ == spec_transparent_of::<I, T, R>(input_traits@.subrange(0, i as int)),
            irregular_traits@ == spec_irregular_of::<I, T, R>(input_traits@.subrange(0, i as int)),
        decreases n - i,
    {
        let ghost prefix = input_traits@.subrange(0, i + 1);
        assert(prefix.drop_last() =~= input_traits@.subrange(0, i as int));
        match input_traits[i].to_generatable() {
            GeneratableTrait::Transparent(t) => transparent_traits.push(t),
            GeneratableTrait::Irregular(t) => irregular_traits.push(t),
        }
        i = i + 1;
    }
    assert(input_traits@.subrange(0, n as int) =~= input_traits@);
    GeneratableTraits { transparent_traits, irregular_traits }
}

/// Law: splitting loses and invents no trait; every typed trait lands in
/// exactly one of the two groups.
pub proof fn lemma_split_is_partition<I: ToGeneratable<T, R>, T, R>(input: Seq<I>)
    ensures
        spec_transparent_of::<I, T, R>(input).len() + spec_irregular_of::<I, T, R>(input).len() == input.len(),
        forall|i: int| 0 <= i < input.len() ==> match #[trigger] input[i].spec_generatable() {
            GeneratableTrait::Transparent(t) => spec_transparent_of::<I, T, R>(input).contains(t),
            GeneratableTrait::Irregular(t) => spec_irregular_of::<I, T, R>(input).contains(t),
        },
    decreases input.len(),
{
    if input.len() > 0 {
        let rest = input.drop_last();
        lemma_split_is_partition::<I, T, R>(rest);
        assert forall|i: int| 0 <= i < input.len() implies match #[trigger] input[i].spec_generatable() {
            GeneratableTrait::Transparent(t) => spec_transparent_of::<I, T, R>(input).contains(t),
            GeneratableTrait::Irregular(t) => spec_irregular_of::<I, T, R>(input).contains(t),
        } by {
            if i < input.len() - 1 {
                assert(input[i] == rest[i]);
                match rest[i].spec_generatable() {
                    GeneratableTrait::Transparent(t) => {
                        let k = choose|k: int| 0 <= k < spec_transparent_of::<I, T, R>(rest).len()
                            && spec_transparent_of::<I, T, R>(rest)[k] == t;
                        match input.last().spec_generatable() {
                            GeneratableTrait::Transparent(u) => {
                                assert(spec_transparent_of::<I, T, R>(input)[k] == t);
                            },
                            GeneratableTrait::Irregular(_) => {},
                        }
                    },
                    GeneratableTrait::Irregular(t) => {
                        let k = choose|k: int| 0 <= k < spec_irregular_of::<I, T, R>(rest).len()
                            && spec_irregular_of::<I, T, R>(rest)[k] == t;
                        match input.last().spec_generatable() {
                            GeneratableTrait::Irregular(u) => {
                                assert(spec_irregular_of::<I, T, R>(input)[k] == t);
                            },
                            GeneratableTrait::Transparent(_) => {},
                        }
                    },
                }
            } else {
                match input.last().spec_generatable() {
                    GeneratableTrait::Transparent(t) => {
                        let s = spec_transparent_of::<I, T, R>(input);
                        assert(s[s.len() - 1] == t);
                    },
                    GeneratableTrait::Irregular(t) => {
                        let s = spec_irregular_of::<I, T, R>(input);
                        assert(s[s.len() - 1] == t);
                    },
                }
            }
        }
    }
}

} // verus!
