use vstd::prelude::*;
use crate::errors::{LoadError, SaveError, TransformError};
use crate::history::{spec_bounded_push, HistoryStack, CAPACITY};
use crate::image_data::{Image, ImageView};
use crate::ops::{Operation, PendingSlot};
use crate::transforms;

verus! {

/// Mathematical model of the whole editor: the current document (image and
/// optional source path), the pending-request slot, and the two history
/// stacks.
#[verifier::ext_equal]
pub ghost struct EditorView {
    pub image: Option<ImageView>,
    pub image_path: Option<Seq<char>>,
    pub pending_operation: Option<Operation>,
    pub history: Seq<ImageView>,
    pub redo: Seq<ImageView>,
}

impl EditorView {
    /// Both stacks are within capacity and every image in sight is well
    /// formed.
    pub open spec fn wf(self) -> bool {
        &&& self.history.len() <= CAPACITY
        &&& self.redo.len() <= CAPACITY
        &&& (self.image matches Some(img) ==> img.wf())
        &&& forall|i: int| 0 <= i < self.history.len() ==> (#[trigger] self.history[i]).wf()
        &&& forall|i: int| 0 <= i < self.redo.len() ==> (#[trigger] self.redo[i]).wf()
    }

    /// The editor as it starts: nothing loaded, nothing pending, no history.
    pub open spec fn initial() -> EditorView {
        EditorView {
            image: None,
            image_path: None,
            pending_operation: None,
            history: Seq::empty(),
            redo: Seq::empty(),
        }
    }
}

/// Whether the transform library accepts this edit of this image; meta
/// operations are not edits and are never asked.
pub open spec fn edit_allowed(img: ImageView, op: Operation) -> bool
    recommends
        !op.is_meta(),
{
    match op {
        Operation::Resize { width, height } => transforms::resize_target_ok(
            img.width,
            width,
            height,
        ),
        Operation::Blur { sigma_bits } => transforms::blur_sigma_ok(sigma_bits) && img.width >= 1
            && img.height >= 1,
        Operation::Brightness { delta } => transforms::brightness_delta_ok(delta),
        Operation::Contrast { factor_bits } => transforms::contrast_factor_ok(factor_bits),
        _ => true,
    }
}

/// The error reported for an edit the transform library does not accept.
pub open spec fn edit_error(img: ImageView, op: Operation) -> TransformError
    recommends
        !op.is_meta(),
        !edit_allowed(img, op),
{
    match op {
        Operation::Blur { sigma_bits } => if !transforms::blur_sigma_ok(sigma_bits) {
            TransformError::InvalidParameter
        } else {
            TransformError::InvalidDimensions
        },
        Operation::Brightness { .. } => TransformError::InvalidParameter,
        Operation::Contrast { .. } => TransformError::InvalidParameter,
        _ => TransformError::InvalidDimensions,
    }
}

/// The dimensions an accepted edit's result has: a resize gives the target
/// dimensions, every other transform keeps the source's.
pub open spec fn edit_result_dims(img: ImageView, op: Operation) -> (u32, u32)
    recommends
        !op.is_meta(),
{
    match op {
        Operation::Resize { width, height } => (width, height),
        _ => (img.width, img.height),
    }
}

/// The dimension facts a tick republishes: when the pending operation is
/// an accepted edit of a loaded image, the applied result has exactly the
/// dimensions `edit_result_dims` gives and is well formed.
pub open spec fn tick_edit_dims(pre: EditorView) -> bool {
    match (pre.pending_operation, pre.image) {
        (Some(op), Some(img)) => !op.is_meta() && edit_allowed(img, op) ==> edit_result(
            img,
            op,
        ).width == edit_result_dims(img, op).0 && edit_result(img, op).height == edit_result_dims(
            img,
            op,
        ).1 && edit_result(img, op).wf(),
        _ => true,
    }
}

/// The image an accepted edit produces.
pub open spec fn edit_result(img: ImageView, op: Operation) -> ImageView
    recommends
        !op.is_meta(),
{
    match op {
        Operation::Resize { width, height } => transforms::resized_of(img, width, height),
        Operation::HueRotate { degrees } => transforms::hue_rotated_of(img, degrees),
        Operation::Blur { sigma_bits } => transforms::blurred_of(img, sigma_bits),
        Operation::FlipHorizontal => transforms::flipped_h_of(img),
        Operation::FlipVertical => transforms::flipped_v_of(img),
        Operation::Grayscale => transforms::grayscaled_of(img),
        Operation::Brightness { delta } => transforms::brightened_of(img, delta),
        Operation::Contrast { factor_bits } => transforms::contrasted_of(img, factor_bits),
        Operation::Undo => img,
        Operation::Redo => img,
    }
}

/// One transition of the document state machine on a drained operation,
/// with the image loaded. An edit pushes the pre-edit image onto the undo
/// stack and replaces the document; Undo pops the undo stack and parks the
/// replaced image on the redo stack; Redo pops the redo stack. Undo and
/// Redo on an empty stack, and a rejected edit, leave the document and both
/// stacks unchanged. Deliberately lenient: a fresh edit after an Undo does
/// not invalidate the redo stack, so a stale redo branch stays reachable.
pub open spec fn step(pre: EditorView, op: Operation) -> (EditorView, Result<(), TransformError>)
    recommends
        pre.image is Some,
{
    let img = pre.image->0;
    if op is Undo {
        if pre.history.len() > 0 {
            (
                EditorView {
                    image: Some(pre.history.last()),
                    history: pre.history.drop_last(),
                    redo: spec_bounded_push(pre.redo, img),
                    pending_operation: None,
                    ..pre
                },
                Ok(()),
            )
        } else {
            (EditorView { pending_operation: None, ..pre }, Ok(()))
        }
    } else if op is Redo {
        if pre.redo.len() > 0 {
            (
                EditorView {
                    image: Some(pre.redo.last()),
                    redo: pre.redo.drop_last(),
                    pending_operation: None,
                    ..pre
                },
                Ok(()),
            )
        } else {
            (EditorView { pending_operation: None, ..pre }, Ok(()))
        }
    } else if edit_allowed(img, op) {
        (
            EditorView {
                image: Some(edit_result(img, op)),
                history: spec_bounded_push(pre.history, img),
                pending_operation: None,
                ..pre
            },
            Ok(()),
        )
    } else {
        (EditorView { pending_operation: None, ..pre }, Err(edit_error(img, op)))
    }
}

/// What one processing tick does to the whole editor: nothing when no
/// operation is pending; otherwise the slot is drained, and the operation
/// is applied only when a document is loaded.
pub open spec fn tick_spec(pre: EditorView) -> (EditorView, Result<(), TransformError>) {
    match pre.pending_operation {
        None => (pre, Ok(())),
        Some(op) => if pre.image is Some {
            step(pre, op)
        } else {
            (EditorView { pending_operation: None, ..pre }, Ok(()))
        },
    }
}

/// The editable-document state machine: the current image with its source
/// path, the single-slot pending request, and the bounded undo and redo
/// stacks.
pub struct ImageProcessor {
    image: Option<Image>,
    image_path: Option<String>,
    pending_operation: PendingSlot,
    history: HistoryStack,
    redo: HistoryStack,
}

impl View for ImageProcessor {
    type V = EditorView;

    closed spec fn view(&self) -> EditorView {
        EditorView {
            image: match self.image {
                Some(img) => Some(img@),
                None => None,
            },
            image_path: match self.image_path {
                Some(p) => Some(p@),
                None => None,
            },
            pending_operation: self.pending_operation@,
            history: self.history@,
            redo: self.redo@,
        }
    }
}

impl Default for ImageProcessor {
    /// A fresh editor with nothing loaded and empty histories.
    fn default() -> (r: Self)
        ensures
            r@ == EditorView::initial(),
            r@.wf(),
    {
        let r = ImageProcessor {
            image: None,
            image_path: None,
            pending_operation: PendingSlot::empty(),
            history: HistoryStack::new(),
            redo: HistoryStack::new(),
        };
        proof {
            assert(r@ =~= EditorView::initial());
        }
        r
    }
}

proof fn lemma_bounded_push_wf(s: Seq<ImageView>, v: ImageView)
    requires
        s.len() <= CAPACITY,
        forall|i: int| 0 <= i < s.len() ==> (#[trigger] s[i]).wf(),
        v.wf(),
    ensures
        spec_bounded_push(s, v).len() <= CAPACITY,
        forall|i: int|
            0 <= i < spec_bounded_push(s, v).len() ==> (#[trigger] spec_bounded_push(s, v)[i]).wf(),
{
}

impl ImageProcessor {
    /// Records the next operation to apply, discarding any request that was
    /// still waiting: the newest submission before a tick wins.
    pub fn submit(&mut self, op: Operation)
        ensures
            final(self)@ == (EditorView { pending_operation: Some(op), ..old(self)@ }),
    {
        self.pending_operation.submit(op);
    }

    /// Drains the pending slot and applies at most one transition, as
    /// `tick_spec` describes. A rejected edit is reported and changes
    /// nothing but the drained slot.
    pub fn tick(&mut self) -> (r: Result<(), TransformError>)
        requires
            old(self)@.wf(),
        ensures
            final(self)@ == tick_spec(old(self)@).0,
            r == tick_spec(old(self)@).1,
            final(self)@.wf(),
            tick_edit_dims(old(self)@),
    {
        let ghost pre = self@;
        let taken = self.pending_operation.take();
        let op = match taken {
            None => {
                proof {
                    assert(self@ =~= pre);
                }
                return Ok(());
            },
            Some(op) => op,
        };
        let img = match self.image.take() {
            None => {
                proof {
                    assert(self@ =~= (EditorView { pending_operation: None, ..pre }));
                }
                return Ok(());
            },
            Some(img) => img,
        };
        match op {
            Operation::Undo => {
                match self.history.pop() {
                    Some(prev) => {
                        self.redo.push(img);
                        self.image = Some(prev);
                    },
                    None => {
                        self.image = Some(img);
                    },
                }
                proof {
                    lemma_bounded_push_wf(pre.redo, pre.image->0);
                    assert(self@ =~= step(pre, op).0);
                }
                Ok(())
            },
            Operation::Redo => {
                match self.redo.pop() {
                    Some(next) => {
                        self.image = Some(next);
                    },
                    None => {
                        self.image = Some(img);
                    },
                }
                proof {
                    assert(self@ =~= step(pre, op).0);
                }
                Ok(())
            },
            Operation::Resize { width, height } => {
                if transforms::check_resize_target(img.width(), width, height) {
                    let out = transforms::apply_resize(&img, width, height);
                    self.history.push(img);
                    self.image = Some(out);
                    proof {
                        lemma_bounded_push_wf(pre.history, pre.image->0);
                        assert(self@ =~= step(pre, op).0);
                    }
                    Ok(())
                } else {
                    self.image = Some(img);
                    proof {
                        assert(self@ =~= step(pre, op).0);
                    }
                    Err(TransformError::InvalidDimensions)
                }
            },
            Operation::HueRotate { degrees } => {
                let out = transforms::apply_hue_rotate(&img, degrees);
                self.history.push(img);
                self.image = Some(out);
                proof {
                    lemma_bounded_push_wf(pre.history, pre.image->0);
                    assert(self@ =~= step(pre, op).0);
                }
                Ok(())
            },
            Operation::Blur { sigma_bits } => {
                if !transforms::check_blur_sigma(sigma_bits) {
                    self.image = Some(img);
                    proof {
                        assert(self@ =~= step(pre, op).0);
                    }
                    Err(TransformError::InvalidParameter)
                } else if img.width() == 0 || img.height() == 0 {
                    self.image = Some(img);
                    proof {
                        assert(self@ =~= step(pre, op).0);
                    }
                    Err(TransformError::InvalidDimensions)
                } else {
                    let out = transforms::apply_blur(&img, sigma_bits);
                    self.history.push(img);
                    self.image = Some(out);
                    proof {
                        lemma_bounded_push_wf(pre.history, pre.image->0);
                        assert(self@ =~= step(pre, op).0);
                    }
                    Ok(())
                }
            },
            Operation::FlipHorizontal => {
                let out = transforms::apply_flip_horizontal(&img);
                self.history.push(img);
                self.image = Some(out);
                proof {
                    lemma_bounded_push_wf(pre.history, pre.image->0);
                    assert(self@ =~= step(pre, op).0);
                }
                Ok(())
            },
            Operation::FlipVertical => {
                let out = transforms::apply_flip_vertical(&img);
                self.history.push(img);
                self.image = Some(out);
                proof {
                    lemma_bounded_push_wf(pre.history, pre.image->0);
                    assert(self@ =~= step(pre, op).0);
                }
                Ok(())
            },
            Operation::Grayscale => {
                let out = transforms::apply_grayscale(&img);
                self.history.push(img);
                self.image = Some(out);
                proof {
                    lemma_bounded_push_wf(pre.history, pre.image->0);
                    assert(self@ =~= step(pre, op).0);
                }
                Ok(())
            },
            Operation::Brightness { delta } => {
                if delta <= i32::MAX - 255 {
                    let out = transforms::apply_brighten(&img, delta);
                    self.history.push(img);
                    self.image = Some(out);
                    proof {
                        lemma_bounded_push_wf(pre.history, pre.image->0);
                        assert(self@ =~= step(pre, op).0);
                    }
                    Ok(())
                } else {
                    self.image = Some(img);
                    proof {
                        assert(self@ =~= step(pre, op).0);
                    }
                    Err(TransformError::InvalidParameter)
                }
            },
            Operation::Contrast { factor_bits } => {
                if transforms::check_contrast_factor(factor_bits) {
                    let out = transforms::apply_contrast(&img, factor_bits);
                    self.history.push(img);
                    self.image = Some(out);
                    proof {
                        lemma_bounded_push_wf(pre.history, pre.image->0);
                        assert(self@ =~= step(pre, op).0);
                    }
                    Ok(())
                } else {
                    self.image = Some(img);
                    proof {
                        assert(self@ =~= step(pre, op).0);
                    }
                    Err(TransformError::InvalidParameter)
                }
            },
        }
    }

    /// Opens the given bytes as the new document: on success the decoded
    /// image replaces the document wholesale and both history stacks are
    /// cleared; on failure everything is left as it was.
    pub fn load(&mut self, bytes: &[u8], path: String) -> (r: Result<(), LoadError>)
        ensures
            match r {
                Ok(_) => {
                    &&& transforms::decoded_of(bytes@) matches Some(img)
                    &&& final(self)@ == (EditorView {
                        image: Some(img),
                        image_path: Some(path@),
                        pending_operation: old(self)@.pending_operation,
                        history: Seq::empty(),
                        redo: Seq::empty(),
                    })
                },
                Err(e) => {
                    &&& e == LoadError::Undecodable
                    &&& final(self)@ == old(self)@
                },
            },
            old(self)@.wf() ==> final(self)@.wf(),
    {
        let ghost pre = self@;
        match transforms::decode_image(bytes) {
            Ok(img) => {
                self.image = Some(img);
                self.image_path = Some(path);
                self.history.clear();
                self.redo.clear();
                Ok(())
            },
            Err(e) => {
                proof {
                    assert(self@ =~= pre);
                }
                Err(e)
            },
        }
    }

    /// Encodes the current image as PNG bytes; the editor itself is left
    /// untouched. With no document loaded there is nothing to export.
    pub fn export_png(&self) -> (r: Result<Vec<u8>, SaveError>)
        requires
            self@.wf(),
        ensures
            match self@.image {
                Some(img) => {
                    &&& (match r {
                        Ok(bytes) => transforms::png_encoding_of(img) == Some(bytes@),
                        Err(e) => transforms::png_encoding_of(img) is None && e
                            == SaveError::Unencodable,
                    })
                    &&& (img.width >= 1 && img.height >= 1 ==> r is Ok)
                },
                None => r == Err::<Vec<u8>, SaveError>(SaveError::Unencodable),
            },
    {
        match self.image.as_ref() {
            Some(img) => img.to_png_bytes(),
            None => Err(SaveError::Unencodable),
        }
    }

    pub fn current_image(&self) -> (r: Option<&Image>)
        ensures
            match r {
                Some(img) => self@.image == Some(img@),
                None => self@.image is None,
            },
    {
        self.image.as_ref()
    }

    pub fn image_path(&self) -> (r: Option<&String>)
        ensures
            match r {
                Some(p) => self@.image_path == Some(p@),
                None => self@.image_path is None,
            },
    {
        self.image_path.as_ref()
    }

    pub fn pending(&self) -> (r: Option<Operation>)
        ensures
            r == self@.pending_operation,
    {
        self.pending_operation.peek()
    }

    pub fn history(&self) -> (r: &HistoryStack)
        ensures
            r@ == self@.history,
    {
        &self.history
    }

    pub fn redo(&self) -> (r: &HistoryStack)
        ensures
            r@ == self@.redo,
    {
        &self.redo
    }
}

} // verus!
