//! The per-model inference parameters listed in `model_data.json`, and the
//! lookup of the active model among them.

use vstd::prelude::*;
use crate::error::{AppError, AppErrorView};

verus! {

/// One entry of `model_data.json`. The gain `compensate` is a 32-bit float;
/// it is carried here by its IEEE-754 bit pattern (`f32::to_bits`).
#[derive(Debug)]
pub struct ModelParams {
    pub compensate_bits: u32,
    pub mdx_dim_f_set: usize,
    pub mdx_dim_t_set: usize,
    pub mdx_n_fft_scale_set: usize,
    pub primary_stem: String,
    pub name: String,
}

impl Clone for ModelParams {
    fn clone(&self) -> (r: Self)
        ensures
            r == *self,
    {
        ModelParams {
            compensate_bits: self.compensate_bits,
            mdx_dim_f_set: self.mdx_dim_f_set,
            mdx_dim_t_set: self.mdx_dim_t_set,
            mdx_n_fft_scale_set: self.mdx_n_fft_scale_set,
            primary_stem: self.primary_stem.clone(),
            name: self.name.clone(),
        }
    }
}

/// The first entry of `params` whose `name` is `name`, if any.
pub open spec fn first_named(params: Seq<ModelParams>, name: Seq<char>) -> Option<ModelParams>
    decreases params.len(),
{
    if params.len() == 0 {
        None
    } else if params[0].name@ == name {
        Some(params[0])
    } else {
        first_named(params.drop_first(), name)
    }
}

/// Looking up a name gives nothing exactly when no entry carries that name;
/// otherwise it gives an entry that carries the name, and no entry before it
/// carries the name.
pub proof fn lemma_first_named_is_first_match(params: Seq<ModelParams>, name: Seq<char>)
    ensures
        first_named(params, name) is None <==> (forall|j: int|
            0 <= j < params.len() ==> #[trigger] params[j].name@ != name),
        first_named(params, name) matches Some(p) ==> {
            &&& p.name@ == name
            &&& exists|i: int|
                0 <= i < params.len() && params[i] == p && (forall|j: int|
                    0 <= j < i ==> #[trigger] params[j].name@ != name)
        },
    decreases params.len(),
{
    if params.len() > 0 && params[0].name@ != name {
        let rest = params.drop_first();
        lemma_first_named_is_first_match(rest, name);
        if first_named(rest, name) is Some {
            let p = first_named(rest, name)->0;
            let i = choose|i: int|
                0 <= i < rest.len() && rest[i] == p && (forall|j: int|
                    0 <= j < i ==> #[trigger] rest[j].name@ != name);
            assert(params[i + 1] == p);
            assert forall|j: int| 0 <= j < i + 1 implies #[trigger] params[j].name@ != name by {
                if j > 0 {
                    assert(params[j] == rest[j - 1]);
                }
            }
            assert(params[i + 1].name@ == name);
        } else {
            assert forall|j: int| 0 <= j < params.len() implies #[trigger] params[j].name@
                != name by {
                if j > 0 {
                    assert(params[j] == rest[j - 1]);
                }
            }
        }
    }
}

/// The entry for `model_filename`: the first one whose `name` equals it, or
/// `ModelNotInRegistry(model_filename)` when none does.
pub fn find_by_name<'a>(params: &'a [ModelParams], model_filename: &str) -> (res: Result<
    &'a ModelParams,
    AppError,
>)
    ensures
        match res {
            Ok(p) => first_named(params@, model_filename@) == Some(*p),
            Err(e) => e@ == AppErrorView::ModelNotInRegistry(model_filename@)
                && first_named(params@, model_filename@) is None,
        },
        res matches Ok(p) ==> {
            &&& p.name@ == model_filename@
            &&& exists|i: int|
                0 <= i < params@.len() && params@[i] == *p && (forall|j: int|
                    0 <= j < i ==> #[trigger] params@[j].name@ != model_filename@)
        },
        res is Err ==> forall|j: int|
            0 <= j < params@.len() ==> #[trigger] params@[j].name@ != model_filename@,
{
    let target = String::from_str(model_filename);
    let mut i: usize = 0;
    assert(params@.subrange(0, params@.len() as int) =~= params@);
    while i < params.len()
        invariant
            i <= params@.len(),
            target@ == model_filename@,
            first_named(params@, model_filename@) == first_named(
                params@.subrange(i as int, params@.len() as int),
                model_filename@,
            ),
        decreases params@.len() - i,
    {
        assert(params@.subrange(i as int, params@.len() as int).drop_first()
            =~= params@.subrange(i + 1, params@.len() as int));
        if params[i].name == target {
            proof {
                lemma_first_named_is_first_match(params@, model_filename@);
            }
            return Ok(&params[i]);
        }
        i = i + 1;
    }
    proof {
        lemma_first_named_is_first_match(params@, model_filename@);
    }
    Err(AppError::ModelNotInRegistry(String::from_str(model_filename)))
}

} // verus!
