use std::any::TypeId;
use std::marker::PhantomData;
use vstd::prelude::*;

verus! {

/// `std::any::TypeId`, the identifier of a type in the compiled program. Nothing of
/// what it holds is visible: two of them are compared as a whole, by [`same_type`].
#[verifier::external_type_specification]
#[verifier::external_body]
pub struct ExTypeId(std::any::TypeId);

/// `std::any::TypeId::of` returns the identifier of `T`. Which value that is depends on the
/// compiled program, so nothing is claimed of it here; contracts speak of a value that this
/// function returns for `T` (see [`is_id_of`]).
pub assume_specification<T: ?Sized + 'static>[ std::any::TypeId::of::<T> ]() -> TypeId
;

/// Whether `id` is the identifier of `T`, that is, what `TypeId::of::<T>()` returns.
pub open spec fn is_id_of<T: ?Sized + 'static>(id: TypeId) -> bool {
    call_ensures(TypeId::of::<T>, (), id)
}

/// `std::any::TypeId::of`, which always returns the one identifier that a type has.
#[verifier::external_body]
pub(crate) fn type_of<T: ?Sized + 'static>() -> (id: TypeId)
    ensures
        is_id_of::<T>(id),
        forall|other: TypeId| #[trigger] is_id_of::<T>(other) ==> other == id,
{
    TypeId::of::<T>()
}

/// `==` on `std::any::TypeId`: true exactly when both are the same identifier.
#[verifier::external_body]
pub(crate) fn same_type(a: &TypeId, b: &TypeId) -> (same: bool)
    ensures
        same == (*a == *b),
{
    *a == *b
}

/// The number by which an entity is known for as long as the application runs.
#[derive(Clone, Copy, Debug, PartialEq, Eq, Hash, Structural)]
pub struct EntityId(pub u64);

/// A handle to an entity whose type is known only at run time.
#[derive(Debug)]
pub struct AnyEntity {
    pub entity_id: EntityId,
    pub entity_type: TypeId,
}

/// A handle to an entity of type `T`.
#[derive(Debug)]
pub struct Entity<T> {
    pub any_entity: AnyEntity,
    pub entity_type: PhantomData<T>,
}

/// A handle that does not keep its entity from being released.
#[derive(Debug)]
pub struct AnyWeakEntity {
    pub entity_id: EntityId,
    pub entity_type: TypeId,
}

/// A handle to an entity of type `T` that does not keep it from being released.
#[derive(Debug)]
pub struct WeakEntity<T> {
    pub any_entity: AnyWeakEntity,
    pub entity_type: PhantomData<T>,
}

/// The typed handle to the entity that `any_entity` refers to.
pub open spec fn typed<T>(any_entity: AnyEntity) -> Entity<T> {
    Entity { any_entity, entity_type: PhantomData }
}

impl<T: 'static> Entity<T> {
    /// The entity is of type `T`.
    pub open spec fn valid(self) -> bool {
        is_id_of::<T>(self.any_entity.entity_type)
    }
}

impl<T: 'static> WeakEntity<T> {
    /// The entity is of type `T`.
    pub open spec fn valid(self) -> bool {
        is_id_of::<T>(self.any_entity.entity_type)
    }
}

impl AnyEntity {
    /// The handle as one to an entity of type `T`. If the entity is of another type, the handle
    /// comes back.
    pub fn downcast<T: 'static>(self) -> (result: Result<Entity<T>, AnyEntity>)
        ensures
            is_id_of::<T>(self.entity_type) ==> result == Ok::<Entity<T>, AnyEntity>(typed(self)),
            !is_id_of::<T>(self.entity_type) ==> result == Err::<Entity<T>, AnyEntity>(self),
    {
        if same_type(&type_of::<T>(), &self.entity_type) {
            Ok(Entity { any_entity: self, entity_type: PhantomData })
        } else {
            Err(self)
        }
    }

    /// The weak handle to the same entity.
    pub fn downgrade(&self) -> (weak: AnyWeakEntity)
        ensures
            weak == (AnyWeakEntity { entity_id: self.entity_id, entity_type: self.entity_type }),
    {
        AnyWeakEntity { entity_id: self.entity_id, entity_type: self.entity_type }
    }

    /// Whether both handles refer to one entity.
    pub fn same_entity(&self, other: &AnyEntity) -> (same: bool)
        ensures
            same == (self.entity_id == other.entity_id),
    {
        self.entity_id == other.entity_id
    }
}

impl Clone for AnyEntity {
    fn clone(&self) -> (copy: Self)
        ensures
            copy == *self,
    {
        AnyEntity { entity_id: self.entity_id, entity_type: self.entity_type }
    }
}

impl AnyWeakEntity {
    /// The strong handle to the same entity, if the entity is still alive.
    pub fn upgrade(&self, alive: bool) -> (strong: Option<AnyEntity>)
        ensures
            strong == (if alive {
                Some(AnyEntity { entity_id: self.entity_id, entity_type: self.entity_type })
            } else {
                None
            }),
    {
        if alive {
            Some(AnyEntity { entity_id: self.entity_id, entity_type: self.entity_type })
        } else {
            None
        }
    }

    /// Whether both handles refer to one entity.
    pub fn same_entity(&self, other: &AnyWeakEntity) -> (same: bool)
        ensures
            same == (self.entity_id == other.entity_id),
    {
        self.entity_id == other.entity_id
    }
}

impl<T: 'static> Entity<T> {
    /// The handle to the entity `entity_id`, which is of type `T`.
    pub fn new(entity_id: EntityId) -> (entity: Self)
        ensures
            entity.any_entity.entity_id == entity_id,
            entity.valid(),
    {
        Entity {
            any_entity: AnyEntity { entity_id, entity_type: type_of::<T>() },
            entity_type: PhantomData,
        }
    }
}

impl<T> Entity<T> {
    /// The same handle without its static type.
    pub fn into_any(self) -> (any_entity: AnyEntity)
        ensures
            any_entity == self.any_entity,
    {
        self.any_entity
    }

    /// The weak handle to the same entity.
    pub fn downgrade(&self) -> (weak: WeakEntity<T>)
        ensures
            weak == (WeakEntity::<T> {
                any_entity: AnyWeakEntity {
                    entity_id: self.any_entity.entity_id,
                    entity_type: self.any_entity.entity_type,
                },
                entity_type: PhantomData,
            }),
    {
        WeakEntity { any_entity: self.any_entity.downgrade(), entity_type: PhantomData }
    }
}

/// An entity converts to type `T` exactly if the identifier of `T` is its type; else its handle
/// comes back. A typed handle is a valid one then, to the same entity.
pub proof fn entity_downcast_goes_by_the_type<T: 'static>(
    entity: AnyEntity,
    result: Result<Entity<T>, AnyEntity>,
)
    requires
        call_ensures(AnyEntity::downcast::<T>, (entity,), result),
    ensures
        result is Ok <==> is_id_of::<T>(entity.entity_type),
        result matches Ok(typed) ==> is_id_of::<T>(typed.any_entity.entity_type)
            && typed.any_entity == entity,
        result matches Err(same) ==> same == entity,
        call_requires(AnyEntity::downcast::<T>, (entity,)),
{
}

/// A new handle names its entity and the identifier of its type. Without its static type and as
/// a weak handle it names the same.
pub proof fn new_handle_names_its_entity<T: 'static>(
    entity_id: EntityId,
    entity: Entity<T>,
    weak: WeakEntity<T>,
    any_entity: AnyEntity,
)
    requires
        call_ensures(Entity::<T>::new, (entity_id,), entity),
        call_ensures(Entity::<T>::downgrade, (&entity,), weak),
        call_ensures(Entity::<T>::into_any, (entity,), any_entity),
    ensures
        entity.any_entity.entity_id == entity_id,
        is_id_of::<T>(entity.any_entity.entity_type),
        weak.any_entity.entity_id == entity_id,
        weak.any_entity.entity_type == entity.any_entity.entity_type,
        any_entity == entity.any_entity,
{
}

/// A weak handle to an entity comes back as the handle that it was made from, exactly as long as
/// the entity is alive.
pub proof fn weak_entity_comes_back(
    entity: AnyEntity,
    weak: AnyWeakEntity,
    alive: bool,
    back: Option<AnyEntity>,
)
    requires
        call_ensures(AnyEntity::downgrade, (&entity,), weak),
        call_ensures(AnyWeakEntity::upgrade, (&weak, alive), back),
    ensures
        back is Some <==> alive,
        back matches Some(back) ==> back == entity,
{
}

} // verus!
