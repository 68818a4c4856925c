//! Single-owner image handles and their transformation model.
//!
//! An [`Image`] owns exactly one native image handle, never observably
//! null, together with the observable state of the native struct it points
//! at: its dimensions and its fixed-capacity filename and format fields.
//! The native calls themselves are made by the embedding program; it hands
//! the outcome of each call — the replacement handle, or the captured
//! exception — to the methods here, which take every decision on it. On a
//! successful outcome the owned handle is swapped for the new one and the
//! observable state moves with it; on a failed outcome the prior state is
//! left untouched and the captured exception comes back as a typed error.
//! Mutation is all-or-nothing: no half-applied state is ever observable.

use vstd::prelude::*;
use vstd::utf8::{decode_utf8, encode_utf8, valid_utf8};
use crate::err::{native_error, spec_native_error, Error, ExceptionInfo};
use crate::scaling::{smart_scale_target, spec_smart_target};
use crate::text::{
    read_buffer, storable, terminated_prefix, write_buffer, decode_text, MAX_TEXT_EXTENT,
};

verus! {

/// The outcome of a native transform call that yields a replacement
/// handle: the non-null handle it returned, or the exception it captured.
pub enum TransformOutcome {
    Replaced(usize),
    Failed(ExceptionInfo),
}

/// The outcome of a native transform whose result has dimensions of the
/// native library's own choosing: the replacement handle with the new
/// column and row counts, or the captured exception.
pub enum ReshapeOutcome {
    Replaced(usize, u64, u64),
    Failed(ExceptionInfo),
}

/// The outcome of a native encode-to-memory call: the encoded bytes, or
/// the captured exception.
pub enum BlobOutcome {
    Blob(Vec<u8>),
    Failed(ExceptionInfo),
}

/// The outcome of a native write-to-sink call: completion, or the
/// exception the native struct recorded.
pub enum WriteOutcome {
    Written,
    Failed(ExceptionInfo),
}

/// The outcome of registering a handle in the native in-process registry:
/// the integer id the library assigned, or the captured exception.
pub enum RegisterOutcome {
    Registered(i64),
    Failed(ExceptionInfo),
}

/// An owned configuration handle of the native library, with the
/// fixed-capacity filename field its struct carries. Each instance owns
/// its native object alone — the native clone call always produces an
/// independent object — and is destroyed exactly once by its owner.
pub struct ImageInfo {
    handle: usize,
    filename: Vec<u8>,
}

impl ImageInfo {
    /// The native configuration handle, as a pointer value.
    pub closed spec fn spec_handle(&self) -> usize {
        self.handle
    }

    /// The full fixed-capacity filename field.
    pub closed spec fn spec_filename_buf(&self) -> Seq<u8> {
        self.filename@
    }

    /// The filename value: the field's bytes before the first terminator.
    pub open spec fn spec_filename(&self) -> Seq<u8> {
        terminated_prefix(self.spec_filename_buf())
    }

    pub open spec fn wf(&self) -> bool {
        self.spec_handle() != 0 && self.spec_filename_buf().len() == MAX_TEXT_EXTENT
    }

    /// Take ownership of a freshly cloned native configuration object. The
    /// native clone call never returns null; callers check before handing
    /// the pointer value over.
    pub fn new(handle: usize) -> (r: ImageInfo)
        requires
            handle != 0,
        ensures
            r.wf(),
            r.spec_handle() == handle,
            r.spec_filename() == Seq::<u8>::empty(),
    {
        ImageInfo { handle, filename: crate::text::zero_buffer() }
    }

    /// Store `path` in the fixed-capacity filename field. A path that does
    /// not fit the field with its terminator, or that holds a terminator
    /// of its own, leaves the field untouched and is reported as an
    /// encoding failure instead of being cut short.
    pub fn set_filename(&mut self, path: &str) -> (r: Result<(), Error>)
        requires
            old(self).wf(),
        ensures
            final(self).wf(),
            final(self).spec_handle() == old(self).spec_handle(),
            match r {
                Ok(()) => storable(encode_utf8(path@)) && final(self).spec_filename()
                    == encode_utf8(path@),
                Err(e) => e == Error::EncodingFailure && !storable(encode_utf8(path@))
                    && final(self).spec_filename_buf() == old(self).spec_filename_buf(),
            },
    {
        write_buffer(&mut self.filename, path.as_bytes())
    }

    /// The native handle, for making the native call this value stands
    /// for.
    pub fn handle(&self) -> (r: usize)
        ensures
            r == self.spec_handle(),
    {
        self.handle
    }

    pub(crate) fn filename_buffer(&self) -> (r: &Vec<u8>)
        ensures
            r@ == self.spec_filename_buf(),
    {
        &self.filename
    }
}

/// An owned native image handle together with the observable state of the
/// struct it points at. The handle is never null once constructed, and is
/// released exactly once by whoever owns the value; a failed transform
/// never changes it.
pub struct Image {
    handle: usize,
    columns: u64,
    rows: u64,
    filename: Vec<u8>,
    magick: Vec<u8>,
}

impl Image {
    /// The owned native handle, as a pointer value.
    pub closed spec fn spec_handle(&self) -> usize {
        self.handle
    }

    /// The image's width in pixels.
    pub closed spec fn spec_columns(&self) -> u64 {
        self.columns
    }

    /// The image's height in pixels.
    pub closed spec fn spec_rows(&self) -> u64 {
        self.rows
    }

    /// The full fixed-capacity filename field of the native struct.
    pub closed spec fn spec_filename_buf(&self) -> Seq<u8> {
        self.filename@
    }

    /// The full fixed-capacity format-tag field of the native struct.
    pub closed spec fn spec_magick_buf(&self) -> Seq<u8> {
        self.magick@
    }

    /// The image's name: the filename field before its first terminator.
    pub open spec fn spec_name(&self) -> Seq<u8> {
        terminated_prefix(self.spec_filename_buf())
    }

    /// The image's format tag, undecoded.
    pub open spec fn spec_format(&self) -> Seq<u8> {
        terminated_prefix(self.spec_magick_buf())
    }

    /// Well-formedness: the handle is non-null, both dimensions are
    /// strictly positive, and the text fields have the native capacity.
    pub open spec fn wf(&self) -> bool {
        &&& self.spec_handle() != 0
        &&& self.spec_columns() >= 1
        &&& self.spec_rows() >= 1
        &&& self.spec_filename_buf().len() == MAX_TEXT_EXTENT
        &&& self.spec_magick_buf().len() == MAX_TEXT_EXTENT
    }

    pub(crate) fn from_parts(
        handle: usize,
        columns: u64,
        rows: u64,
        filename: Vec<u8>,
        magick: Vec<u8>,
    ) -> (r: Image)
        requires
            handle != 0,
            columns >= 1,
            rows >= 1,
            filename@.len() == MAX_TEXT_EXTENT,
            magick@.len() == MAX_TEXT_EXTENT,
        ensures
            r.wf(),
            r.spec_handle() == handle,
            r.spec_columns() == columns,
            r.spec_rows() == rows,
            r.spec_filename_buf() == filename@,
            r.spec_magick_buf() == magick@,
    {
        Image { handle, columns, rows, filename, magick }
    }

    /// The owned native handle, for making the native call a transform
    /// stands for.
    pub fn handle(&self) -> (r: usize)
        ensures
            r == self.spec_handle(),
    {
        self.handle
    }

    /// The image's dimensions, width then height; strictly positive on
    /// every well-formed image.
    pub fn dimensions(&self) -> (r: (u64, u64))
        requires
            self.wf(),
        ensures
            r.0 == self.spec_columns(),
            r.1 == self.spec_rows(),
            r.0 >= 1,
            r.1 >= 1,
    {
        (self.columns, self.rows)
    }

    /// The image's name, decoded from the filename field: `Ok` exactly
    /// when the stored bytes are valid text.
    pub fn name(&self) -> (r: Result<String, Error>)
        ensures
            r is Ok <==> valid_utf8(self.spec_name()),
            r matches Ok(s) ==> s@ == decode_utf8(self.spec_name()),
            r matches Err(e) ==> e == Error::EncodingFailure,
    {
        let bytes = read_buffer(&self.filename);
        decode_text(bytes)
    }

    /// The image's format tag, decoded from the native format field: `Ok`
    /// exactly when the stored bytes are valid text.
    pub fn mime_type(&self) -> (r: Result<String, Error>)
        ensures
            r is Ok <==> valid_utf8(self.spec_format()),
            r matches Ok(s) ==> s@ == decode_utf8(self.spec_format()),
            r matches Err(e) ==> e == Error::EncodingFailure,
    {
        let bytes = read_buffer(&self.magick);
        decode_text(bytes)
    }

    /// Store a new format tag in the fixed-capacity format field, checking
    /// that it and its terminator fit; nothing else about the image
    /// changes.
    pub fn set_format(&mut self, fmt: &str) -> (r: Result<(), Error>)
        requires
            old(self).wf(),
        ensures
            final(self).wf(),
            final(self).spec_handle() == old(self).spec_handle(),
            final(self).spec_columns() == old(self).spec_columns(),
            final(self).spec_rows() == old(self).spec_rows(),
            final(self).spec_filename_buf() == old(self).spec_filename_buf(),
            match r {
                Ok(()) => storable(encode_utf8(fmt@)) && final(self).spec_format()
                    == encode_utf8(fmt@),
                Err(e) => e == Error::EncodingFailure && !storable(encode_utf8(fmt@))
                    && final(self).spec_magick_buf() == old(self).spec_magick_buf(),
            },
    {
        write_buffer(&mut self.magick, fmt.as_bytes())
    }

    /// Apply the outcome of a native scale call asked for `width` by
    /// `height`: on a replacement handle the old handle is swapped out and
    /// the dimensions become exactly the asked-for pair; on a failure the
    /// image is untouched and the captured exception comes back typed. The
    /// native library rejects empty targets, so a replacement implies the
    /// asked-for dimensions are positive.
    pub fn scale(&mut self, width: u64, height: u64, outcome: TransformOutcome) -> (r: Result<
        (),
        Error,
    >)
        requires
            old(self).wf(),
            outcome matches TransformOutcome::Replaced(handle) ==> handle != 0 && width >= 1
                && height >= 1,
        ensures
            final(self).wf(),
            match outcome {
                TransformOutcome::Replaced(handle) => {
                    &&& r is Ok
                    &&& final(self).spec_handle() == handle
                    &&& final(self).spec_columns() == width
                    &&& final(self).spec_rows() == height
                    &&& final(self).spec_filename_buf() == old(self).spec_filename_buf()
                    &&& final(self).spec_magick_buf() == old(self).spec_magick_buf()
                },
                TransformOutcome::Failed(exception) => {
                    &&& *final(self) == *old(self)
                    &&& r == Err::<(), Error>(spec_native_error(exception))
                },
            },
    {
        match outcome {
            TransformOutcome::Replaced(handle) => {
                self.handle = handle;
                self.columns = width;
                self.rows = height;
                Ok(())
            },
            TransformOutcome::Failed(exception) => Err(native_error(exception)),
        }
    }

    /// Apply the outcome of a native rotate call: the replacement comes
    /// with dimensions of the native library's choosing, which become the
    /// image's; a failure leaves the image untouched.
    pub fn rotate(&mut self, outcome: ReshapeOutcome) -> (r: Result<(), Error>)
        requires
            old(self).wf(),
            outcome matches ReshapeOutcome::Replaced(handle, columns, rows) ==> handle != 0
                && columns >= 1 && rows >= 1,
        ensures
            final(self).wf(),
            match outcome {
                ReshapeOutcome::Replaced(handle, columns, rows) => {
                    &&& r is Ok
                    &&& final(self).spec_handle() == handle
                    &&& final(self).spec_columns() == columns
                    &&& final(self).spec_rows() == rows
                    &&& final(self).spec_filename_buf() == old(self).spec_filename_buf()
                    &&& final(self).spec_magick_buf() == old(self).spec_magick_buf()
                },
                ReshapeOutcome::Failed(exception) => {
                    &&& *final(self) == *old(self)
                    &&& r == Err::<(), Error>(spec_native_error(exception))
                },
            },
    {
        match outcome {
            ReshapeOutcome::Replaced(handle, columns, rows) => {
                self.handle = handle;
                self.columns = columns;
                self.rows = rows;
                Ok(())
            },
            ReshapeOutcome::Failed(exception) => Err(native_error(exception)),
        }
    }

    /// Apply the outcome of a native crop call asked for the `width` by
    /// `height` region at `(x, y)`: on a replacement the dimensions become
    /// exactly the asked-for pair; on a failure the image is untouched.
    pub fn crop(
        &mut self,
        x: i64,
        y: i64,
        width: u64,
        height: u64,
        outcome: TransformOutcome,
    ) -> (r: Result<(), Error>)
        requires
            old(self).wf(),
            outcome matches TransformOutcome::Replaced(handle) ==> handle != 0 && width >= 1
                && height >= 1,
        ensures
            final(self).wf(),
            match outcome {
                TransformOutcome::Replaced(handle) => {
                    &&& r is Ok
                    &&& final(self).spec_handle() == handle
                    &&& final(self).spec_columns() == width
                    &&& final(self).spec_rows() == height
                    &&& final(self).spec_filename_buf() == old(self).spec_filename_buf()
                    &&& final(self).spec_magick_buf() == old(self).spec_magick_buf()
                },
                TransformOutcome::Failed(exception) => {
                    &&& *final(self) == *old(self)
                    &&& r == Err::<(), Error>(spec_native_error(exception))
                },
            },
    {
        let _ = x;
        let _ = y;
        match outcome {
            TransformOutcome::Replaced(handle) => {
                self.handle = handle;
                self.columns = width;
                self.rows = height;
                Ok(())
            },
            TransformOutcome::Failed(exception) => Err(native_error(exception)),
        }
    }

    /// Apply the outcome of a native mirror call: a horizontal flip keeps
    /// the dimensions, so a replacement swaps only the handle; a failure
    /// leaves the image untouched.
    pub fn mirror(&mut self, outcome: TransformOutcome) -> (r: Result<(), Error>)
        requires
            old(self).wf(),
            outcome matches TransformOutcome::Replaced(handle) ==> handle != 0,
        ensures
            final(self).wf(),
            match outcome {
                TransformOutcome::Replaced(handle) => {
                    &&& r is Ok
                    &&& final(self).spec_handle() == handle
                    &&& final(self).spec_columns() == old(self).spec_columns()
                    &&& final(self).spec_rows() == old(self).spec_rows()
                    &&& final(self).spec_filename_buf() == old(self).spec_filename_buf()
                    &&& final(self).spec_magick_buf() == old(self).spec_magick_buf()
                },
                TransformOutcome::Failed(exception) => {
                    &&& *final(self) == *old(self)
                    &&& r == Err::<(), Error>(spec_native_error(exception))
                },
            },
    {
        match outcome {
            TransformOutcome::Replaced(handle) => {
                self.handle = handle;
                Ok(())
            },
            TransformOutcome::Failed(exception) => Err(native_error(exception)),
        }
    }

    /// Apply the outcome of a smart scale: the scale is always performed,
    /// with the target computed from the current dimensions and the
    /// optional bounds — even a target equal to the current dimensions is
    /// a real scale call, never skipped.
    pub fn smart_scale(&mut self, w: Option<u64>, h: Option<u64>, outcome: TransformOutcome) -> (r:
        Result<(), Error>)
        requires
            old(self).wf(),
            outcome matches TransformOutcome::Replaced(handle) ==> handle != 0
                && spec_smart_target(
                old(self).spec_columns() as int,
                old(self).spec_rows() as int,
                w,
                h,
            ).0 >= 1 && spec_smart_target(
                old(self).spec_columns() as int,
                old(self).spec_rows() as int,
                w,
                h,
            ).1 >= 1,
        ensures
            final(self).wf(),
            match outcome {
                TransformOutcome::Replaced(handle) => {
                    &&& r is Ok
                    &&& final(self).spec_handle() == handle
                    &&& final(self).spec_columns() as int == spec_smart_target(
                        old(self).spec_columns() as int,
                        old(self).spec_rows() as int,
                        w,
                        h,
                    ).0
                    &&& final(self).spec_rows() as int == spec_smart_target(
                        old(self).spec_columns() as int,
                        old(self).spec_rows() as int,
                        w,
                        h,
                    ).1
                    &&& final(self).spec_filename_buf() == old(self).spec_filename_buf()
                    &&& final(self).spec_magick_buf() == old(self).spec_magick_buf()
                },
                TransformOutcome::Failed(exception) => {
                    &&& *final(self) == *old(self)
                    &&& r == Err::<(), Error>(spec_native_error(exception))
                },
            },
    {
        let target = smart_scale_target(self.columns, self.rows, w, h);
        self.scale(target.0, target.1, outcome)
    }

    /// Turn the outcome of a native encode-to-memory call into a typed
    /// result: the encoded bytes as returned, or the captured exception as
    /// a typed error.
    pub fn as_bytes(&self, outcome: BlobOutcome) -> (r: Result<Vec<u8>, Error>)
        ensures
            match outcome {
                BlobOutcome::Blob(bytes) => r == Ok::<Vec<u8>, Error>(bytes),
                BlobOutcome::Failed(exception) => r == Err::<Vec<u8>, Error>(
                    spec_native_error(exception),
                ),
            },
    {
        match outcome {
            BlobOutcome::Blob(bytes) => Ok(bytes),
            BlobOutcome::Failed(exception) => Err(native_error(exception)),
        }
    }

    /// Store the path a write will go to in the image's fixed-capacity
    /// filename field, with the same bounds check as every such store;
    /// nothing else about the image changes.
    pub fn set_write_path(&mut self, path: &str) -> (r: Result<(), Error>)
        requires
            old(self).wf(),
        ensures
            final(self).wf(),
            final(self).spec_handle() == old(self).spec_handle(),
            final(self).spec_columns() == old(self).spec_columns(),
            final(self).spec_rows() == old(self).spec_rows(),
            final(self).spec_magick_buf() == old(self).spec_magick_buf(),
            match r {
                Ok(()) => storable(encode_utf8(path@))
                    && final(self).spec_name() == encode_utf8(path@),
                Err(e) => e == Error::EncodingFailure && !storable(encode_utf8(path@))
                    && final(self).spec_filename_buf() == old(self).spec_filename_buf(),
            },
    {
        write_buffer(&mut self.filename, path.as_bytes())
    }

    /// Turn the outcome of a native write-to-sink call into a typed
    /// result; the image itself is not changed by writing.
    pub fn write(&self, outcome: WriteOutcome) -> (r: Result<(), Error>)
        ensures
            match outcome {
                WriteOutcome::Written => r is Ok,
                WriteOutcome::Failed(exception) => r == Err::<(), Error>(
                    spec_native_error(exception),
                ),
            },
    {
        match outcome {
            WriteOutcome::Written => Ok(()),
            WriteOutcome::Failed(exception) => Err(native_error(exception)),
        }
    }

    /// Turn the outcome of registering this handle in the native registry
    /// into a typed result: the id the library assigned, or the captured
    /// exception.
    pub fn cache(&self, outcome: RegisterOutcome) -> (r: Result<i64, Error>)
        ensures
            match outcome {
                RegisterOutcome::Registered(id) => r == Ok::<i64, Error>(id),
                RegisterOutcome::Failed(exception) => r == Err::<i64, Error>(
                    spec_native_error(exception),
                ),
            },
    {
        match outcome {
            RegisterOutcome::Registered(id) => Ok(id),
            RegisterOutcome::Failed(exception) => Err(native_error(exception)),
        }
    }
}

/// A path stored in an image's filename field is read back unchanged: the
/// store writes the path's encoding, and the name is that encoding's
/// decoding — the very characters that were stored.
pub proof fn lemma_stored_path_reads_back(image: Image, path: Seq<char>)
    requires
        image.spec_name() == encode_utf8(path),
    ensures
        valid_utf8(image.spec_name()),
        decode_utf8(image.spec_name()) == path,
{
    vstd::utf8::encode_utf8_valid_utf8(path);
    vstd::utf8::encode_utf8_decode_utf8(path);
}

/// Every well-formed image — in particular one coming out of any
/// successful construction — has a non-null handle and strictly positive
/// dimensions.
pub proof fn lemma_wf_image_positive(image: Image)
    requires
        image.wf(),
    ensures
        image.spec_handle() != 0,
        image.spec_columns() >= 1,
        image.spec_rows() >= 1,
{
}

} // verus!
