//! The compilers of modules, and the store that keeps what they have compiled.
use vstd::prelude::*;

use crate::text::owned;

verus! {

/// What is known of how a module was compiled.
#[derive(Debug)]
pub struct CompilerMetadata {
    pub backend: String,
}

/// Why a module was not compiled.
#[derive(Debug)]
pub enum CompilerError {
    FailedToCompile { reason: String },
    FailedToDeserialize { reason: String },
}

/// A module of an engine and how it was compiled.
pub struct CompiledModule<M> {
    pub module: M,
    pub metadata: CompilerMetadata,
}

/// The compiler that the engine comes with.
#[derive(Debug)]
pub struct CraneliftCompiler {}

impl CraneliftCompiler {
    pub fn new() -> (compiler: Self)
        ensures
            compiler == (CraneliftCompiler {  }),
    {
        CraneliftCompiler {  }
    }

    /// What a compilation gives, from what the engine made of the code.
    pub fn compiled<M>(&self, made: Result<M, String>) -> (compiled: Result<
        CompiledModule<M>,
        CompilerError,
    >)
        ensures
            match (made, compiled) {
                (Ok(module), Ok(c)) => c.module == module && c.metadata.backend@ == "cranelift"@,
                (Err(reason), Err(err)) => err == (CompilerError::FailedToCompile { reason }),
                _ => false,
            },
    {
        match made {
            Ok(module) => Ok(
                CompiledModule {
                    module,
                    metadata: CompilerMetadata { backend: owned("cranelift") },
                },
            ),
            Err(reason) => Err(CompilerError::FailedToCompile { reason }),
        }
    }
}

/// The SHA-256 digest of bytes.
pub uninterp spec fn sha256(bytes: Seq<u8>) -> Seq<u8>;

/// `sha2::Sha256`, over all of the bytes at once: the digest depends on the bytes alone and has
/// 32 bytes.
#[verifier::external_body]
fn sha256_of(bytes: &[u8]) -> (digest: Vec<u8>)
    ensures
        digest@ == sha256(bytes@),
        digest@.len() == 32,
{
    <sha2::Sha256 as sha2::Digest>::digest(bytes).to_vec()
}

/// What a memoized compilation does first.
#[derive(Debug)]
pub enum MemoizedStep {
    /// The module is to be restored from what was stored.
    Restore(Vec<u8>),
    /// The code is to be compiled, and the outcome stored under the key.
    Compile { key: Vec<u8> },
}

/// A compiler that stores what it has compiled under the digest of the code.
#[derive(Debug)]
pub struct MemoizedCompiler {}

impl MemoizedCompiler {
    pub fn new() -> (compiler: Self)
        ensures
            compiler == (MemoizedCompiler {  }),
    {
        MemoizedCompiler {  }
    }

    /// The key under which the module of some code is stored.
    pub fn key(&self, module_code: &[u8]) -> (key: Vec<u8>)
        ensures
            key@ == sha256(module_code@),
            key@.len() == 32,
    {
        sha256_of(module_code)
    }

    /// What is done for some code, from what is stored under its key.
    pub fn compile(&self, module_code: &[u8], stored: Option<Vec<u8>>) -> (step: MemoizedStep)
        ensures
            match (stored, step) {
                (Some(bytes), MemoizedStep::Restore(restored)) => restored == bytes,
                (None, MemoizedStep::Compile { key }) => key@ == sha256(module_code@),
                _ => false,
            },
    {
        match stored {
            Some(bytes) => MemoizedStep::Restore(bytes),
            None => MemoizedStep::Compile { key: self.key(module_code) },
        }
    }

    /// What a restored module gives, from what the engine made of the stored bytes.
    pub fn load_from_storage_if_available<M>(&self, made: Option<Result<M, String>>) -> (loaded:
        Result<Option<CompiledModule<M>>, CompilerError>)
        ensures
            match (made, loaded) {
                (None, Ok(None)) => true,
                (Some(Ok(module)), Ok(Some(c))) => c.module == module && c.metadata.backend@
                    == "unknown"@,
                (Some(Err(reason)), Err(err)) => err == (CompilerError::FailedToDeserialize {
                    reason,
                }),
                _ => false,
            },
    {
        match made {
            None => Ok(None),
            Some(Ok(module)) => Ok(
                Some(
                    CompiledModule {
                        module,
                        metadata: CompilerMetadata { backend: owned("unknown") },
                    },
                ),
            ),
            Some(Err(reason)) => Err(CompilerError::FailedToDeserialize { reason }),
        }
    }

    /// A module that was restored says so.
    pub fn hit<M>(&self, loaded: CompiledModule<M>) -> (compiled: CompiledModule<M>)
        ensures
            compiled.module == loaded.module,
            compiled.metadata.backend@ == "MemoizedCompiler[hit] | "@ + loaded.metadata.backend@,
    {
        let mut backend = owned("MemoizedCompiler[hit] | ");
        backend.push_str(loaded.metadata.backend.as_str());
        CompiledModule { module: loaded.module, metadata: CompilerMetadata { backend } }
    }

    /// A module that had to be compiled says so; an error is passed on.
    pub fn miss<M>(&self, inner: Result<CompiledModule<M>, CompilerError>) -> (compiled: Result<
        CompiledModule<M>,
        CompilerError,
    >)
        ensures
            match (inner, compiled) {
                (Ok(i), Ok(c)) => c.module == i.module && c.metadata.backend@
                    == "MemoizedCompiler[miss] | "@ + i.metadata.backend@,
                (Err(i), Err(c)) => c == i,
                _ => false,
            },
    {
        match inner {
            Ok(inner) => {
                let mut backend = owned("MemoizedCompiler[miss] | ");
                backend.push_str(inner.metadata.backend.as_str());
                Ok(CompiledModule { module: inner.module, metadata: CompilerMetadata { backend } })
            },
            Err(err) => Err(err),
        }
    }
}

/// What was compiled, whether now or before, is what is handed on, and where it came from can be read
/// off: a module that was found is marked as found before its maker, one that was made as made.
pub proof fn compiled_modules_are_handed_on<M>(
    compiler: MemoizedCompiler,
    loaded: CompiledModule<M>,
    hit: CompiledModule<M>,
    inner: Result<CompiledModule<M>, CompilerError>,
    miss: Result<CompiledModule<M>, CompilerError>,
)
    requires
        call_ensures(MemoizedCompiler::hit::<M>, (&compiler, loaded), hit),
        call_ensures(MemoizedCompiler::miss::<M>, (&compiler, inner), miss),
    ensures
        hit.module == loaded.module,
        hit.metadata.backend@ == "MemoizedCompiler[hit] | "@ + loaded.metadata.backend@,
        miss is Ok <==> inner is Ok,
        miss is Ok ==> miss->Ok_0.module == inner->Ok_0.module && miss->Ok_0.metadata.backend@
            == "MemoizedCompiler[miss] | "@ + inner->Ok_0.metadata.backend@,
        miss is Err ==> miss->Err_0 == inner->Err_0,
{
}

/// A module is compiled exactly where nothing is stored for it, and is then stored under the key under
/// which it is looked for: the same code has the same key.
pub proof fn modules_are_found_under_their_keys(
    compiler: MemoizedCompiler,
    code: &[u8],
    stored: Option<Vec<u8>>,
    step: MemoizedStep,
    again: &[u8],
    key: Vec<u8>,
)
    requires
        call_ensures(MemoizedCompiler::compile, (&compiler, code, stored), step),
        call_ensures(MemoizedCompiler::key, (&compiler, again), key),
        again@ == code@,
    ensures
        step is Compile <==> stored is None,
        step matches MemoizedStep::Compile { key: under } ==> under@ == key@,
        step matches MemoizedStep::Restore(bytes) ==> stored == Some(bytes),
{
}

/// A module that was stored is restored as it is, one that was made is had as it is, and where either
/// failed the reason is told.
pub proof fn failures_to_compile_are_told<M>(
    memoized: MemoizedCompiler,
    restored: Option<Result<M, String>>,
    loaded: Result<Option<CompiledModule<M>>, CompilerError>,
    compiler: CraneliftCompiler,
    made: Result<M, String>,
    compiled: Result<CompiledModule<M>, CompilerError>,
)
    requires
        call_ensures(
            MemoizedCompiler::load_from_storage_if_available::<M>,
            (&memoized, restored),
            loaded,
        ),
        call_ensures(CraneliftCompiler::compiled::<M>, (&compiler, made), compiled),
    ensures
        restored is None <==> (loaded matches Ok(None)),
        restored matches Some(Ok(module)) ==> (loaded matches Ok(Some(c)) && c.module == module),
        restored matches Some(Err(reason)) ==> loaded == Err::<Option<CompiledModule<M>>, _>(
            CompilerError::FailedToDeserialize { reason },
        ),
        made matches Ok(module) ==> (compiled matches Ok(c) && c.module == module
            && c.metadata.backend@ == "cranelift"@),
        made matches Err(reason) ==> compiled == Err::<CompiledModule<M>, _>(
            CompilerError::FailedToCompile { reason },
        ),
{
}

} // verus!
