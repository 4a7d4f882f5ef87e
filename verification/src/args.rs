//! The argument builder: an ordered set of named scalar arguments plus named
//! file attachments, accumulated by a service façade and serialized into the
//! parts of a multipart request.
//!
//! Absent optional arguments are never recorded, so they cannot appear in the
//! serialized request; supplied arguments keep their name, their value and the
//! order in which they were added; file attachments are always separate parts,
//! never inlined as scalar fields.

use vstd::prelude::*;

use crate::file::File;
use crate::file::FileView;

verus! {

/// The value of one scalar argument: a string, or an explicit boolean.
///
/// A boolean supplied as `false` is a real value, distinct from an omitted
/// optional argument, so booleans are kept as booleans rather than encoded
/// into a sentinel string.
#[derive(Clone, Debug, PartialEq, Eq)]
pub enum ArgValue {
    Str(String),
    Flag(bool),
}

/// What an [`ArgValue`] is to the specifications.
pub enum ArgValueView {
    Str(Seq<char>),
    Flag(bool),
}

impl View for ArgValue {
    type V = ArgValueView;

    open spec fn view(&self) -> ArgValueView {
        match self {
            ArgValue::Str(s) => ArgValueView::Str(s@),
            ArgValue::Flag(b) => ArgValueView::Flag(*b),
        }
    }
}

/// What an [`ApiArguments`] is to the specifications: the scalar arguments and
/// the file attachments, each in the order they were added.
pub struct ApiArgumentsView {
    pub args: Seq<(Seq<char>, ArgValueView)>,
    pub files: Seq<(Seq<char>, FileView)>,
}

/// The arguments of one request: named scalar arguments and named file
/// attachments, in insertion order.
#[derive(Clone, Debug, PartialEq, Eq)]
pub struct ApiArguments {
    pub args: Vec<(String, ArgValue)>,
    pub files: Vec<(String, File)>,
}

impl View for ApiArguments {
    type V = ApiArgumentsView;

    open spec fn view(&self) -> ApiArgumentsView {
        ApiArgumentsView {
            args: self.args@.map_values(|p: (String, ArgValue)| (p.0@, p.1@)),
            files: self.files@.map_values(|p: (String, File)| (p.0@, p.1@)),
        }
    }
}

/// One call on the argument builder, as the specifications see it.
pub enum ArgOpView {
    AddString(Seq<char>, Seq<char>),
    AddOptString(Seq<char>, Option<Seq<char>>),
    AddOptBool(Seq<char>, Option<bool>),
    AddFile(Seq<char>, FileView),
}

/// The argument set with nothing added yet.
pub open spec fn empty_args_view() -> ApiArgumentsView {
    ApiArgumentsView { args: Seq::empty(), files: Seq::empty() }
}

/// What one builder call does to the argument set: a supplied argument or a
/// file is appended, an absent optional argument changes nothing.
pub open spec fn apply_arg_op(v: ApiArgumentsView, op: ArgOpView) -> ApiArgumentsView {
    match op {
        ArgOpView::AddString(name, value) => ApiArgumentsView {
            args: v.args.push((name, ArgValueView::Str(value))),
            files: v.files,
        },
        ArgOpView::AddOptString(name, value) => match value {
            Some(s) => ApiArgumentsView {
                args: v.args.push((name, ArgValueView::Str(s))),
                files: v.files,
            },
            None => v,
        },
        ArgOpView::AddOptBool(name, value) => match value {
            Some(b) => ApiArgumentsView {
                args: v.args.push((name, ArgValueView::Flag(b))),
                files: v.files,
            },
            None => v,
        },
        ArgOpView::AddFile(name, file) => ApiArgumentsView {
            args: v.args,
            files: v.files.push((name, file)),
        },
    }
}

/// The argument set built by a sequence of builder calls, starting empty.
pub open spec fn built_view(ops: Seq<ArgOpView>) -> ApiArgumentsView
    decreases ops.len(),
{
    if ops.len() == 0 {
        empty_args_view()
    } else {
        apply_arg_op(built_view(ops.drop_last()), ops.last())
    }
}

/// The scalar entries a sequence of builder calls supplies, in call order:
/// every string, supplied optional string and supplied optional boolean, and
/// nothing for absent optional arguments or files.
pub open spec fn scalar_entries(ops: Seq<ArgOpView>) -> Seq<(Seq<char>, ArgValueView)>
    decreases ops.len(),
{
    if ops.len() == 0 {
        Seq::empty()
    } else {
        scalar_entries(ops.drop_last()) + (match ops.last() {
            ArgOpView::AddString(name, value) => seq![(name, ArgValueView::Str(value))],
            ArgOpView::AddOptString(name, value) => match value {
                Some(s) => seq![(name, ArgValueView::Str(s))],
                None => Seq::empty(),
            },
            ArgOpView::AddOptBool(name, value) => match value {
                Some(b) => seq![(name, ArgValueView::Flag(b))],
                None => Seq::empty(),
            },
            ArgOpView::AddFile(_, _) => Seq::empty(),
        })
    }
}

/// The file entries a sequence of builder calls supplies, in call order.
pub open spec fn file_entries(ops: Seq<ArgOpView>) -> Seq<(Seq<char>, FileView)>
    decreases ops.len(),
{
    if ops.len() == 0 {
        Seq::empty()
    } else {
        file_entries(ops.drop_last()) + (match ops.last() {
            ArgOpView::AddFile(name, file) => seq![(name, file)],
            _ => Seq::empty(),
        })
    }
}

/// Law: building an argument set from any sequence of builder calls keeps
/// exactly the supplied scalar arguments and file attachments, with their
/// names, their values and their order intact, and drops exactly the absent
/// optional arguments.
pub proof fn lemma_builder_preserves_arguments(ops: Seq<ArgOpView>)
    ensures
        built_view(ops).args == scalar_entries(ops),
        built_view(ops).files == file_entries(ops),
    decreases ops.len(),
{
    if ops.len() == 0 {
        assert(built_view(ops).args =~= scalar_entries(ops));
        assert(built_view(ops).files =~= file_entries(ops));
    } else {
        lemma_builder_preserves_arguments(ops.drop_last());
        assert(built_view(ops).args =~= scalar_entries(ops));
        assert(built_view(ops).files =~= file_entries(ops));
    }
}

/// One part of the serialized request: a scalar field, or a file attachment.
#[derive(Clone, Debug, PartialEq, Eq)]
pub enum RequestPart {
    Scalar(String, ArgValue),
    FileAttachment(String, File),
}

/// What a [`RequestPart`] is to the specifications.
pub enum RequestPartView {
    Scalar(Seq<char>, ArgValueView),
    FileAttachment(Seq<char>, FileView),
}

impl View for RequestPart {
    type V = RequestPartView;

    open spec fn view(&self) -> RequestPartView {
        match self {
            RequestPart::Scalar(name, value) => RequestPartView::Scalar(name@, value@),
            RequestPart::FileAttachment(name, file) => RequestPartView::FileAttachment(
                name@,
                file@,
            ),
        }
    }
}

/// The views of a sequence of request parts.
pub open spec fn parts_view(parts: Seq<RequestPart>) -> Seq<RequestPartView> {
    parts.map_values(|p: RequestPart| p@)
}

/// Scalar arguments as request parts, in order.
pub open spec fn scalar_parts(args: Seq<(Seq<char>, ArgValueView)>) -> Seq<RequestPartView> {
    args.map_values(|p: (Seq<char>, ArgValueView)| RequestPartView::Scalar(p.0, p.1))
}

/// File attachments as request parts, in order.
pub open spec fn file_parts(files: Seq<(Seq<char>, FileView)>) -> Seq<RequestPartView> {
    files.map_values(|p: (Seq<char>, FileView)| RequestPartView::FileAttachment(p.0, p.1))
}

/// The serialized form of an argument set: one part per scalar argument, in
/// order, followed by one part per file attachment, in order.
pub open spec fn serialized_parts(v: ApiArgumentsView) -> Seq<RequestPartView> {
    scalar_parts(v.args) + file_parts(v.files)
}

/// The argument set read back from a serialized request, assuming the scalar
/// parts come first; used to state that serialization loses nothing.
pub open spec fn recovered_args(parts: Seq<RequestPartView>, n_scalars: int) -> ApiArgumentsView {
    ApiArgumentsView {
        args: parts.subrange(0, n_scalars).map_values(
            |p: RequestPartView| match p {
                RequestPartView::Scalar(name, value) => (name, value),
                RequestPartView::FileAttachment(name, file) => (name, ArgValueView::Flag(false)),
            },
        ),
        files: parts.subrange(n_scalars, parts.len() as int).map_values(
            |p: RequestPartView| match p {
                RequestPartView::FileAttachment(name, file) => (name, file),
                RequestPartView::Scalar(name, value) => (
                    name,
                    FileView { name: Seq::empty(), content: Seq::empty() },
                ),
            },
        ),
    }
}

/// Law: for any argument set built by any sequence of builder calls,
/// serializing it into request parts and reading the parts back yields
/// exactly the supplied arguments and files again — no reordering, no silent
/// drop of a supplied optional argument, no change to any name, value, file
/// name or file content.
pub proof fn lemma_build_serialize_round_trip(ops: Seq<ArgOpView>)
    ensures
        recovered_args(
            serialized_parts(built_view(ops)),
            scalar_entries(ops).len() as int,
        ).args == scalar_entries(ops),
        recovered_args(
            serialized_parts(built_view(ops)),
            scalar_entries(ops).len() as int,
        ).files == file_entries(ops),
{
    lemma_builder_preserves_arguments(ops);
    let v = built_view(ops);
    let parts = serialized_parts(v);
    let n = scalar_entries(ops).len() as int;
    assert(recovered_args(parts, n).args =~= scalar_entries(ops));
    assert(recovered_args(parts, n).files =~= file_entries(ops));
}

impl ApiArguments {
    /// Creates an empty argument set.
    pub fn new() -> (r: Self)
        ensures
            r@ == empty_args_view(),
    {
        let r = ApiArguments { args: Vec::new(), files: Vec::new() };
        proof {
            assert(r@.args =~= empty_args_view().args);
            assert(r@.files =~= empty_args_view().files);
        }
        r
    }

    /// Adds a named string argument.
    pub fn add_string_arg(&mut self, name: &str, value: &str)
        ensures
            final(self)@ == apply_arg_op(old(self)@, ArgOpView::AddString(name@, value@)),
    {
        self.args.push((name.to_string(), ArgValue::Str(value.to_string())));
        proof {
            assert(self@.args =~= old(self)@.args.push((name@, ArgValueView::Str(value@))));
            assert(self@.files =~= old(self)@.files);
        }
    }

    /// Adds a named string argument when one is supplied; adds nothing when it
    /// is absent.
    pub fn add_opt_string_arg(&mut self, name: &str, value: Option<String>)
        ensures
            final(self)@ == apply_arg_op(old(self)@, ArgOpView::AddOptString(name@, value.deep_view())),
    {
        match value {
            Some(s) => {
                self.args.push((name.to_string(), ArgValue::Str(s)));
                proof {
                    assert(self@.args =~= old(self)@.args.push(
                        (name@, ArgValueView::Str(value->0@)),
                    ));
                    assert(self@.files =~= old(self)@.files);
                }
            },
            None => {
            },
        }
    }

    /// Adds a named boolean argument when one is supplied; adds nothing when
    /// it is absent.
    pub fn add_opt_bool_arg(&mut self, name: &str, value: Option<bool>)
        ensures
            final(self)@ == apply_arg_op(old(self)@, ArgOpView::AddOptBool(name@, value)),
    {
        match value {
            Some(b) => {
                self.args.push((name.to_string(), ArgValue::Flag(b)));
                proof {
                    assert(self@.args =~= old(self)@.args.push((name@, ArgValueView::Flag(b))));
                    assert(self@.files =~= old(self)@.files);
                }
            },
            None => {
            },
        }
    }

    /// Attaches a named file.
    pub fn add_file(&mut self, name: &str, file: File)
        ensures
            final(self)@ == apply_arg_op(old(self)@, ArgOpView::AddFile(name@, file@)),
    {
        self.files.push((name.to_string(), file));
        proof {
            assert(self@.files =~= old(self)@.files.push((name@, file@)));
            assert(self@.args =~= old(self)@.args);
        }
    }

    /// Serializes the argument set into the parts of a request: every scalar
    /// argument in order, then every file attachment in order.
    pub fn to_parts(&self) -> (r: Vec<RequestPart>)
        ensures
            parts_view(r@) == serialized_parts(self@),
    {
        let mut r: Vec<RequestPart> = Vec::new();
        let mut i: usize = 0;
        while i < self.args.len()
            invariant
                i <= self.args@.len(),
                r@.len() == i,
                parts_view(r@) =~= scalar_parts(self@.args.subrange(0, i as int)),
            decreases self.args@.len() - i,
        {
            let (name, value) = &self.args[i];
            let part = match value {
                ArgValue::Str(s) => RequestPart::Scalar(name.clone(), ArgValue::Str(s.clone())),
                ArgValue::Flag(b) => RequestPart::Scalar(name.clone(), ArgValue::Flag(*b)),
            };
            proof {
                assert(part@ == RequestPartView::Scalar(self@.args[i as int].0, self@.args[i as int].1));
            }
            let ghost r0 = r@;
            let ghost i0 = i as int;
            r.push(part);
            i = i + 1;
            proof {
                assert forall|k: int| 0 <= k < i implies parts_view(r@)[k] == scalar_parts(
                    self@.args.subrange(0, i as int),
                )[k] by {
                    assert(r@ == r0.push(part));
                    if k < i0 {
                        assert(r@[k] == r0[k]);
                        assert(parts_view(r0)[k] == scalar_parts(self@.args.subrange(0, i0))[k]);
                        assert(scalar_parts(self@.args.subrange(0, i0))[k]
                            == RequestPartView::Scalar(
                            self@.args.subrange(0, i0)[k].0,
                            self@.args.subrange(0, i0)[k].1,
                        ));
                    } else {
                        assert(r@[k] == part);
                    }
                    assert(scalar_parts(self@.args.subrange(0, i as int))[k]
                        == RequestPartView::Scalar(
                        self@.args.subrange(0, i as int)[k].0,
                        self@.args.subrange(0, i as int)[k].1,
                    ));
                }
                assert(parts_view(r@) =~= scalar_parts(self@.args.subrange(0, i as int)));
            }
        }
        proof {
            assert(self@.args.subrange(0, self.args@.len() as int) =~= self@.args);
        }
        let mut j: usize = 0;
        while j < self.files.len()
            invariant
                j <= self.files@.len(),
                r@.len() == self.args@.len() + j,
                parts_view(r@) =~= scalar_parts(self@.args) + file_parts(
                    self@.files.subrange(0, j as int),
                ),
            decreases self.files@.len() - j,
        {
            let (name, file) = &self.files[j];
            let part = RequestPart::FileAttachment(name.clone(), file.duplicate());
            proof {
                assert(part@ == RequestPartView::FileAttachment(
                    self@.files[j as int].0,
                    self@.files[j as int].1,
                ));
            }
            let ghost r0 = r@;
            let ghost j0 = j as int;
            r.push(part);
            j = j + 1;
            proof {
                let na = self@.args.len() as int;
                assert forall|k: int| 0 <= k < r@.len() implies parts_view(r@)[k] == (scalar_parts(
                    self@.args,
                ) + file_parts(self@.files.subrange(0, j as int)))[k] by {
                    assert(r@ == r0.push(part));
                    if k < na + j0 {
                        assert(r@[k] == r0[k]);
                        assert(parts_view(r0)[k] == (scalar_parts(self@.args) + file_parts(
                            self@.files.subrange(0, j0),
                        ))[k]);
                        if k >= na {
                            assert(file_parts(self@.files.subrange(0, j0))[k - na]
                                == RequestPartView::FileAttachment(
                                self@.files.subrange(0, j0)[k - na].0,
                                self@.files.subrange(0, j0)[k - na].1,
                            ));
                            assert(file_parts(self@.files.subrange(0, j as int))[k - na]
                                == RequestPartView::FileAttachment(
                                self@.files.subrange(0, j as int)[k - na].0,
                                self@.files.subrange(0, j as int)[k - na].1,
                            ));
                        }
                    } else {
                        assert(r@[k] == part);
                        assert(file_parts(self@.files.subrange(0, j as int))[k - na]
                            == RequestPartView::FileAttachment(
                            self@.files.subrange(0, j as int)[k - na].0,
                            self@.files.subrange(0, j as int)[k - na].1,
                        ));
                    }
                }
                assert(parts_view(r@) =~= scalar_parts(self@.args) + file_parts(
                    self@.files.subrange(0, j as int),
                ));
            }
        }
        proof {
            assert(self@.files.subrange(0, self.files@.len() as int) =~= self@.files);
            assert(parts_view(r@) =~= serialized_parts(self@));
        }
        r
    }
}

} // verus!
