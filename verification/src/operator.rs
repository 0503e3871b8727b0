use crate::errors::{Failure, Errors};
use crate::input::outcome_of;
use crate::pipeline::{
    apply_all, failure_kept, input_gives, lemma_failure_runs_through, run_gives, ImageInput,
    ImageOperation,
};
use crate::raster::{raster_of, Raster};
use image::DynamicImage;
use vstd::prelude::*;

verus! {

/// A pipeline that is applied once. It holds a source with operations of
/// its own and further operations until it is applied, and the buffer that
/// they left from then on.
pub struct ImageOperator {
    /// The source, until the pipeline is applied.
    pub image_input: Option<ImageInput>,
    /// The operations that are applied to what the source resolves to.
    pub operations: Vec<ImageOperation>,
    /// The buffer that applying the pipeline left.
    pub image: Option<DynamicImage>,
}

impl ImageOperator {
    /// Whether the pipeline was applied: it holds no source and no
    /// operations any more, only a buffer.
    pub open spec fn applied(self) -> bool {
        &&& self.image_input.is_none()
        &&& self.operations@.len() == 0
        &&& self.image.is_some()
    }

    /// Whether `out` can be the outcome of applying the pipeline. One
    /// without a source was applied before and fails with
    /// `InputImageAlreadyUsed`. Else the source is resolved with its own
    /// operations, and the pipeline's operations are applied in order to what
    /// that left; the first failure is the outcome.
    pub open spec fn gives(self, out: Result<Raster, Failure>) -> bool {
        match self.image_input {
            None => out == Err::<Raster, Failure>(Failure::InputImageAlreadyUsed),
            Some(input) => exists|mid: Result<Raster, Failure>|
                {
                    &&& input_gives(input, mid)
                    &&& #[trigger] failure_kept(mid, out)
                    &&& run_gives(self.operations, mid, self.operations.len() as int, out)
                },
        }
    }

    /// What a result of applying the pipeline says: the model of the buffer
    /// that the new pipeline holds, or the failure.
    pub open spec fn outcome(res: Result<ImageOperator, Errors>) -> Result<Raster, Failure> {
        match res {
            Ok(next) => match next.image {
                Some(image) => Ok(raster_of(image)),
                None => Err(Failure::InputImageAlreadyUsed),
            },
            Err(e) => Err(e.seen()),
        }
    }

    /// A pipeline that is ready to be applied.
    pub fn new(image_input: ImageInput, operations: Vec<ImageOperation>) -> (operator: Self)
        ensures
            operator.image_input == Some(image_input),
            operator.operations == operations,
            operator.image.is_none(),
    {
        Self { image_input: Some(image_input), operations, image: None }
    }

    /// Applies the pipeline: resolves the source, applies the operations in
    /// order, and hands out a pipeline that holds the buffer they left and
    /// nothing else. Any failure ends it, and no buffer is kept then. A
    /// pipeline that was applied before fails with `InputImageAlreadyUsed`.
    pub fn apply_all_operations(self) -> (res: Result<Self, Errors>)
        ensures
            self.gives(Self::outcome(res)),
            res matches Ok(next) ==> next.applied(),
            self.image_input.is_none() ==> res matches Err(Errors::InputImageAlreadyUsed),
    {
        let ImageOperator { image_input, operations, image } = self;
        let input = match image_input {
            Some(input) => input,
            None => {
                return Err(Errors::InputImageAlreadyUsed);
            },
        };
        let first = input.get_image();
        let ghost mid = outcome_of(first);
        let image = match first {
            Ok(image) => image,
            Err(e) => {
                proof {
                    lemma_failure_runs_through(operations, mid, 0, operations.len() as int, e.seen());
                    assert(failure_kept(mid, Err(e.seen())));
                }
                return Err(e);
            },
        };
        match apply_all(operations, image) {
            Ok(image) => {
                proof {
                    assert(failure_kept(mid, Ok(raster_of(image))));
                }
                Ok(Self { image_input: None, operations: Vec::new(), image: Some(image) })
            },
            Err(e) => {
                proof {
                    assert(failure_kept(mid, Err(e.seen())));
                }
                Err(e)
            },
        }
    }

    /// The buffer that the pipeline holds: the one that applying it left, or
    /// nothing where it was not applied.
    pub fn get_image(self) -> (image: Option<DynamicImage>)
        ensures
            image == self.image,
    {
        self.image
    }
}

/// A pipeline is applied once: one that was applied fails with
/// `InputImageAlreadyUsed` when it is applied again.
pub proof fn law_single_use(operator: ImageOperator, out: Result<Raster, Failure>)
    requires
        operator.applied(),
        operator.gives(out),
    ensures
        out == Err::<Raster, Failure>(Failure::InputImageAlreadyUsed),
{
}

} // verus!
