//! Handles to models that the native inference engine has loaded.
//!
//! The engine itself lives outside this library. What the library keeps of a
//! loaded model is the address the engine gave it, and the promise that a
//! handle never carries the null address.

use vstd::prelude::*;

verus! {

/// An engine-side model object, named by the address at which the engine
/// placed it. Address zero names no object.
#[derive(Clone, Copy, Debug)]
pub struct NeuralModel {
    address: usize,
}

impl NeuralModel {
    pub closed spec fn spec_address(self) -> usize {
        self.address
    }

    /// The reference to whatever the engine placed at `address`.
    pub fn at(address: usize) -> (reference: NeuralModel)
        ensures
            reference.spec_address() == address,
    {
        NeuralModel { address }
    }

    /// The address this reference holds.
    #[verifier::when_used_as_spec(spec_address)]
    pub fn address(self) -> (address: usize)
        ensures
            address == self.spec_address(),
    {
        self.address
    }

    /// Whether this is the null reference, which the engine returns when it
    /// could not build a model.
    pub fn is_null(self) -> (null: bool)
        ensures
            null <==> self.spec_address() == 0,
    {
        self.address == 0
    }
}

/// Exclusive handle to one loaded model.
///
/// A handle is neither `Clone` nor `Copy`: whoever holds it is the only one
/// entitled to run the model or to release it.
#[derive(Debug)]
pub struct Model {
    inner: NeuralModel,
}

/// The wide character that stands for one code point of a path.
pub open spec fn wide_char(c: char) -> i32 {
    c as i32
}

/// The code points of `path` as wide characters, closed by a zero.
pub open spec fn wide_path(path: Seq<char>) -> Seq<i32> {
    Seq::new(
        path.len() + 1,
        |i: int|
            if i < path.len() {
                wide_char(path[i])
            } else {
                0i32
            },
    )
}

/// What a failed load reports.
pub open spec fn load_failure() -> Seq<char> {
    "Failed to load NAM model: CreateModelFromFile returned null"@
}

impl Model {
    #[verifier::type_invariant]
    spec fn non_null(self) -> bool {
        self.inner.spec_address() != 0
    }

    /// The address of the model this handle owns.
    pub closed spec fn view(&self) -> usize {
        self.inner.spec_address()
    }

    /// Adopts what the engine's constructor returned: a handle for a model it
    /// built, the load failure for the null reference.
    pub fn from_raw(created: NeuralModel) -> (loaded: Result<Model, String>)
        ensures
            created.spec_address() != 0 ==> loaded is Ok && loaded->Ok_0@ == created.spec_address(),
            created.spec_address() == 0 ==> loaded is Err && loaded->Err_0@ == load_failure(),
    {
        if created.is_null() {
            Err("Failed to load NAM model: CreateModelFromFile returned null".to_string())
        } else {
            Ok(Model { inner: created })
        }
    }

    /// Loads the model stored at `path`. `create` is the engine's constructor:
    /// it is given the encoded path and returns the reference to what it
    /// built, or the null reference. The load succeeds exactly when the
    /// constructor returned a model.
    pub fn from_file<F: FnOnce(Vec<i32>) -> NeuralModel>(
        path: &str,
        create: F,
    ) -> (loaded: Result<Model, String>)
        requires
            forall|wide: Vec<i32>| wide@ == wide_path(path@) ==> call_requires(create, (wide,)),
        ensures
            exists|wide: Vec<i32>, created: NeuralModel|
                {
                    &&& wide@ == wide_path(path@)
                    &&& call_ensures(create, (wide,), created)
                    &&& created.spec_address() != 0 ==> loaded is Ok && loaded->Ok_0@
                        == created.spec_address()
                    &&& created.spec_address() == 0 ==> loaded is Err && loaded->Err_0@
                        == load_failure()
                },
    {
        let wide_path = Model::encode_path(path);
        let created = create(wide_path);
        Model::from_raw(created)
    }

    /// Rebuilds the handle for a model known by its address.
    pub(crate) fn adopt(address: usize) -> (model: Model)
        requires
            address != 0,
        ensures
            model@ == address,
    {
        Model { inner: NeuralModel::at(address) }
    }

    /// The address to hand to the engine when running or releasing the model.
    /// It is never null.
    pub fn address(&self) -> (address: usize)
        ensures
            address == self@,
            address != 0,
    {
        proof {
            use_type_invariant(self);
        }
        self.inner.address()
    }

    /// Gives up the handle, leaving its holder with the bare reference.
    pub fn into_raw(self) -> (reference: NeuralModel)
        ensures
            reference.spec_address() == self@,
            reference.spec_address() != 0,
    {
        proof {
            use_type_invariant(&self);
        }
        self.inner
    }

    /// Encodes a path the way the engine's constructor reads it: one wide
    /// character per code point, then a terminating zero.
    pub fn encode_path(path: &str) -> (wide: Vec<i32>)
        ensures
            wide@ == wide_path(path@),
    {
        let mut wide: Vec<i32> = Vec::new();
        for c in it: path.chars()
            invariant
                it.seq() == path@,
                wide@.len() == it.index(),
                forall|i: int| 0 <= i < it.index() ==> wide@[i] == wide_char(#[trigger] path@[i]),
        {
            wide.push(c as i32);
        }
        wide.push(0i32);
        wide
    }
}

} // verus!
