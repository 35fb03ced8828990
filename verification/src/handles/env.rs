//! Environment handles.

use vstd::prelude::*;

use std::sync::Arc;

use tokio::runtime::Runtime;

use super::{HandleType, HasObjectType};

verus! {

/// Environment handle. Owns the runtime that its connections share.
#[derive(Debug)]
pub struct EnvHandle {
    pub object_type: HandleType,
    pub runtime: Arc<Runtime>,
}

/// What an [`EnvHandle`] holds.
pub struct EnvView {
    pub object_type: HandleType,
    pub runtime: Arc<Runtime>,
}

impl View for EnvHandle {
    type V = EnvView;

    open spec fn view(&self) -> EnvView {
        EnvView { object_type: self.object_type, runtime: self.runtime }
    }
}

impl EnvHandle {
    pub fn new(runtime: Arc<Runtime>) -> (handle: Self)
        ensures
            handle@ == (EnvView { object_type: HandleType::Env, runtime }),
    {
        EnvHandle { object_type: HandleType::Env, runtime }
    }
}

impl HasObjectType for EnvHandle {
    open spec fn object_type_spec(&self) -> HandleType {
        self.object_type
    }

    open spec fn same_but_object_type(&self, other: Self) -> bool {
        other == (EnvHandle { object_type: other.object_type, ..*self })
    }

    fn object_type_mut(&mut self) -> &mut HandleType {
        &mut self.object_type
    }
}

} // verus!
