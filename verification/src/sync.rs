//! Deletion routing and diff application.
//!
//! A diff response bundles, per entity kind, a batch of changed records plus
//! a batch of heterogeneous deletion notices. [`GroupedDeletions`] classifies
//! the notices into per-kind key batches, parsing numeric identifiers and
//! rejecting malformed ones; [`apply_diff`] applies a whole response to an
//! in-memory store in the required order: upserts, then deletions, then the
//! checkpoint.

use vstd::prelude::*;

use crate::error::{Result, ZenMoneyError};
use crate::keyed::{key_view_set, map_of, upsert_model, Keyed};
use crate::models::{AccountId, CompanyId, Deletion, DiffRequest, DiffResponse, InstrumentId,
    MerchantId, ReminderId, ReminderMarkerId, TagId, TransactionId, UserId};
use crate::parse::{parse_i32, parse_i64, spec_parse_i32, spec_parse_i64};
use crate::storage::InMemoryStorage;
use crate::text::str_eq_str;

verus! {

/// Whether a deletion notice with this type tag and raw identifier can be
/// classified: notices of numeric-keyed kinds must carry a parseable number;
/// every other notice always can (unknown kinds are skipped).
pub open spec fn notice_parses(object: Seq<char>, id: Seq<char>) -> bool {
    if object == "user"@ {
        spec_parse_i64(id) is Some
    } else if object == "instrument"@ || object == "company"@ || object == "country"@ {
        spec_parse_i32(id) is Some
    } else {
        true
    }
}

/// Whether every notice of the batch can be classified.
pub open spec fn route_ok(ds: Seq<Deletion>) -> bool {
    forall|i: int| 0 <= i < ds.len() ==> notice_parses((#[trigger] ds[i]).object@, ds[i].id@)
}

/// The raw identifiers of the notices tagged `tag`, in order.
pub open spec fn string_bucket(ds: Seq<Deletion>, tag: Seq<char>) -> Seq<Seq<char>> {
    ds.filter(|d: Deletion| d.object@ == tag).map_values(|d: Deletion| d.id@)
}

/// The parsed 32-bit identifiers of the notices tagged `tag`, in order.
/// Meaningful only when every such notice parses.
pub open spec fn i32_bucket(ds: Seq<Deletion>, tag: Seq<char>) -> Seq<i32> {
    ds.filter(|d: Deletion| d.object@ == tag).map_values(
        |d: Deletion| spec_parse_i32(d.id@)->0,
    )
}

/// The parsed 64-bit identifiers of the notices tagged `tag`, in order.
/// Meaningful only when every such notice parses.
pub open spec fn i64_bucket(ds: Seq<Deletion>, tag: Seq<char>) -> Seq<i64> {
    ds.filter(|d: Deletion| d.object@ == tag).map_values(
        |d: Deletion| spec_parse_i64(d.id@)->0,
    )
}

/// The spec-level key values named by a sequence of executable keys.
pub open spec fn id_views<K: View>(keys: Seq<K>) -> Seq<K::V> {
    keys.map_values(|k: K| k@)
}

/// The set of key values of a key sequence equals the set the remove
/// operations work with.
pub proof fn lemma_key_view_set_is_to_set<K: View>(keys: Seq<K>)
    ensures
        key_view_set(keys) == id_views(keys).to_set(),
{
    assert(key_view_set(keys) =~= id_views(keys).to_set()) by {
        assert forall|kv: K::V| id_views(keys).to_set().contains(kv) implies key_view_set(
            keys,
        ).contains(kv) by {
            let i = choose|i: int| 0 <= i < id_views(keys).len() && id_views(keys)[i] == kv;
            assert(keys[i]@ == kv);
        }
        assert forall|kv: K::V| key_view_set(keys).contains(kv) implies id_views(
            keys,
        ).to_set().contains(kv) by {
            let i = choose|i: int| 0 <= i < keys.len() && keys[i]@ == kv;
            assert(id_views(keys)[i] == kv);
            assert(id_views(keys).contains(kv));
        }
    }
}

/// How one more notice extends each bucket: the bucket of its tag gains the
/// notice's identifier; every other bucket is unchanged.
proof fn lemma_string_bucket_step(ds: Seq<Deletion>, i: int, tag: Seq<char>)
    requires
        0 <= i < ds.len(),
    ensures
        string_bucket(ds.take(i + 1), tag) == (if ds[i].object@ == tag {
            string_bucket(ds.take(i), tag).push(ds[i].id@)
        } else {
            string_bucket(ds.take(i), tag)
        }),
{
    reveal_with_fuel(Seq::filter, 2);
    assert(ds.take(i + 1).drop_last() =~= ds.take(i));
    assert(ds.take(i + 1).last() == ds[i]);
    if ds[i].object@ == tag {
        assert(string_bucket(ds.take(i + 1), tag) =~= string_bucket(ds.take(i), tag).push(
            ds[i].id@,
        ));
    } else {
        assert(string_bucket(ds.take(i + 1), tag) =~= string_bucket(ds.take(i), tag));
    }
}

/// [`lemma_string_bucket_step`] for the 32-bit numeric buckets.
proof fn lemma_i32_bucket_step(ds: Seq<Deletion>, i: int, tag: Seq<char>)
    requires
        0 <= i < ds.len(),
    ensures
        i32_bucket(ds.take(i + 1), tag) == (if ds[i].object@ == tag {
            i32_bucket(ds.take(i), tag).push(spec_parse_i32(ds[i].id@)->0)
        } else {
            i32_bucket(ds.take(i), tag)
        }),
{
    reveal_with_fuel(Seq::filter, 2);
    assert(ds.take(i + 1).drop_last() =~= ds.take(i));
    assert(ds.take(i + 1).last() == ds[i]);
    if ds[i].object@ == tag {
        assert(i32_bucket(ds.take(i + 1), tag) =~= i32_bucket(ds.take(i), tag).push(
            spec_parse_i32(ds[i].id@)->0,
        ));
    } else {
        assert(i32_bucket(ds.take(i + 1), tag) =~= i32_bucket(ds.take(i), tag));
    }
}

/// [`lemma_string_bucket_step`] for the 64-bit numeric bucket.
proof fn lemma_i64_bucket_step(ds: Seq<Deletion>, i: int, tag: Seq<char>)
    requires
        0 <= i < ds.len(),
    ensures
        i64_bucket(ds.take(i + 1), tag) == (if ds[i].object@ == tag {
            i64_bucket(ds.take(i), tag).push(spec_parse_i64(ds[i].id@)->0)
        } else {
            i64_bucket(ds.take(i), tag)
        }),
{
    reveal_with_fuel(Seq::filter, 2);
    assert(ds.take(i + 1).drop_last() =~= ds.take(i));
    assert(ds.take(i + 1).last() == ds[i]);
    if ds[i].object@ == tag {
        assert(i64_bucket(ds.take(i + 1), tag) =~= i64_bucket(ds.take(i), tag).push(
            spec_parse_i64(ds[i].id@)->0,
        ));
    } else {
        assert(i64_bucket(ds.take(i + 1), tag) =~= i64_bucket(ds.take(i), tag));
    }
}

/// Deletion notices classified by entity kind, ready to be handed to the
/// store's remove operations.
///
/// Numeric identifiers (instrument, company, country, user) are parsed from
/// their string representation. Unknown entity type tags are skipped: the
/// remote protocol may introduce kinds this client does not yet model.
/// Budget notices cannot be routed at all, since their raw identifier cannot
/// be mapped back to the composite budget key.
#[derive(Debug)]
pub struct GroupedDeletions {
    /// Account keys to remove.
    pub accounts: Vec<AccountId>,
    /// Transaction keys to remove.
    pub transactions: Vec<TransactionId>,
    /// Tag keys to remove.
    pub tags: Vec<TagId>,
    /// Merchant keys to remove.
    pub merchants: Vec<MerchantId>,
    /// Instrument keys to remove.
    pub instruments: Vec<InstrumentId>,
    /// Company keys to remove.
    pub companies: Vec<CompanyId>,
    /// Country keys to remove.
    pub countries: Vec<i32>,
    /// User keys to remove.
    pub users: Vec<UserId>,
    /// Reminder keys to remove.
    pub reminders: Vec<ReminderId>,
    /// Reminder marker keys to remove.
    pub reminder_markers: Vec<ReminderMarkerId>,
}

impl GroupedDeletions {
    /// Each per-kind key batch holds exactly the classified identifiers of
    /// the notice batch `ds`, in their original order.
    pub open spec fn routed(self, ds: Seq<Deletion>) -> bool {
        &&& id_views(self.accounts@) == string_bucket(ds, "account"@)
        &&& id_views(self.transactions@) == string_bucket(ds, "transaction"@)
        &&& id_views(self.tags@) == string_bucket(ds, "tag"@)
        &&& id_views(self.merchants@) == string_bucket(ds, "merchant"@)
        &&& id_views(self.instruments@) == i32_bucket(ds, "instrument"@)
        &&& id_views(self.companies@) == i32_bucket(ds, "company"@)
        &&& id_views(self.countries@) == i32_bucket(ds, "country"@)
        &&& id_views(self.users@) == i64_bucket(ds, "user"@)
        &&& id_views(self.reminders@) == string_bucket(ds, "reminder"@)
        &&& id_views(self.reminder_markers@) == string_bucket(ds, "reminderMarker"@)
    }

    /// Creates an empty classification.
    pub fn new() -> (r: Self)
        ensures
            r.accounts@.len() == 0,
            r.transactions@.len() == 0,
            r.tags@.len() == 0,
            r.merchants@.len() == 0,
            r.instruments@.len() == 0,
            r.companies@.len() == 0,
            r.countries@.len() == 0,
            r.users@.len() == 0,
            r.reminders@.len() == 0,
            r.reminder_markers@.len() == 0,
    {
        GroupedDeletions {
            accounts: Vec::new(),
            transactions: Vec::new(),
            tags: Vec::new(),
            merchants: Vec::new(),
            instruments: Vec::new(),
            companies: Vec::new(),
            countries: Vec::new(),
            users: Vec::new(),
            reminders: Vec::new(),
            reminder_markers: Vec::new(),
        }
    }

    /// Classifies a single deletion notice into the matching key batch.
    ///
    /// A notice of a numeric-keyed kind whose identifier does not parse
    /// fails with [`ZenMoneyError::InvalidDeletionId`] and changes nothing;
    /// a notice of an unknown kind is skipped and succeeds.
    pub fn push_deletion(&mut self, object: &str, id: &str) -> (r: Result<()>)
        ensures
            (r is Ok) <==> notice_parses(object@, id@),
            r is Err ==> *final(self) == *old(self) && r->Err_0 is InvalidDeletionId,
            r is Ok ==> {
                &&& id_views(final(self).accounts@) == (if object@ == "account"@ {
                    id_views(old(self).accounts@).push(id@)
                } else {
                    id_views(old(self).accounts@)
                })
                &&& id_views(final(self).transactions@) == (if object@ == "transaction"@ {
                    id_views(old(self).transactions@).push(id@)
                } else {
                    id_views(old(self).transactions@)
                })
                &&& id_views(final(self).tags@) == (if object@ == "tag"@ {
                    id_views(old(self).tags@).push(id@)
                } else {
                    id_views(old(self).tags@)
                })
                &&& id_views(final(self).merchants@) == (if object@ == "merchant"@ {
                    id_views(old(self).merchants@).push(id@)
                } else {
                    id_views(old(self).merchants@)
                })
                &&& id_views(final(self).instruments@) == (if object@ == "instrument"@ {
                    id_views(old(self).instruments@).push(spec_parse_i32(id@)->0)
                } else {
                    id_views(old(self).instruments@)
                })
                &&& id_views(final(self).companies@) == (if object@ == "company"@ {
                    id_views(old(self).companies@).push(spec_parse_i32(id@)->0)
                } else {
                    id_views(old(self).companies@)
                })
                &&& id_views(final(self).countries@) == (if object@ == "country"@ {
                    id_views(old(self).countries@).push(spec_parse_i32(id@)->0)
                } else {
                    id_views(old(self).countries@)
                })
                &&& id_views(final(self).users@) == (if object@ == "user"@ {
                    id_views(old(self).users@).push(spec_parse_i64(id@)->0)
                } else {
                    id_views(old(self).users@)
                })
                &&& id_views(final(self).reminders@) == (if object@ == "reminder"@ {
                    id_views(old(self).reminders@).push(id@)
                } else {
                    id_views(old(self).reminders@)
                })
                &&& id_views(final(self).reminder_markers@) == (if object@ == "reminderMarker"@ {
                    id_views(old(self).reminder_markers@).push(id@)
                } else {
                    id_views(old(self).reminder_markers@)
                })
            },
    {
        proof {
            reveal_strlit("account");
            reveal_strlit("transaction");
            reveal_strlit("tag");
            reveal_strlit("merchant");
            reveal_strlit("instrument");
            reveal_strlit("company");
            reveal_strlit("country");
            reveal_strlit("user");
            reveal_strlit("reminder");
            reveal_strlit("reminderMarker");
            assert("account"@.len() == 7);
            assert("transaction"@.len() == 11);
            assert("tag"@.len() == 3);
            assert("merchant"@.len() == 8);
            assert("instrument"@.len() == 10);
            assert("company"@.len() == 7);
            assert("country"@.len() == 7);
            assert("user"@.len() == 4);
            assert("reminder"@.len() == 8);
            assert("reminderMarker"@.len() == 14);
            assert("account"@ != "company"@) by {
                assert("account"@[0] == 'a' && "company"@[0] == 'c');
            }
            assert("account"@ != "country"@) by {
                assert("account"@[0] == 'a' && "country"@[0] == 'c');
            }
            assert("company"@ != "country"@) by {
                assert("company"@[2] == 'm' && "country"@[2] == 'u');
            }
            assert("merchant"@ != "reminder"@) by {
                assert("merchant"@[0] == 'm' && "reminder"@[0] == 'r');
            }
        }
        let is_account = str_eq_str(object, "account");
        let is_transaction = str_eq_str(object, "transaction");
        let is_tag = str_eq_str(object, "tag");
        let is_merchant = str_eq_str(object, "merchant");
        let is_instrument = str_eq_str(object, "instrument");
        let is_company = str_eq_str(object, "company");
        let is_country = str_eq_str(object, "country");
        let is_user = str_eq_str(object, "user");
        let is_reminder = str_eq_str(object, "reminder");
        let is_reminder_marker = str_eq_str(object, "reminderMarker");
        if is_account {
            let ghost before = self.accounts@;
            self.accounts.push(AccountId::new(id.to_owned()));
            proof {
                assert(id_views(self.accounts@) =~= id_views(before).push(id@));
            }
            Ok(())
        } else if is_transaction {
            let ghost before = self.transactions@;
            self.transactions.push(TransactionId::new(id.to_owned()));
            proof {
                assert(id_views(self.transactions@) =~= id_views(before).push(id@));
            }
            Ok(())
        } else if is_tag {
            let ghost before = self.tags@;
            self.tags.push(TagId::new(id.to_owned()));
            proof {
                assert(id_views(self.tags@) =~= id_views(before).push(id@));
            }
            Ok(())
        } else if is_merchant {
            let ghost before = self.merchants@;
            self.merchants.push(MerchantId::new(id.to_owned()));
            proof {
                assert(id_views(self.merchants@) =~= id_views(before).push(id@));
            }
            Ok(())
        } else if is_instrument {
            match parse_i32(id) {
                Some(v) => {
                    let ghost before = self.instruments@;
                    self.instruments.push(InstrumentId::new(v));
                    proof {
                        assert(id_views(self.instruments@) =~= id_views(before).push(
                            spec_parse_i32(id@)->0,
                        ));
                    }
                    Ok(())
                },
                None => Err(ZenMoneyError::InvalidDeletionId(id.to_owned())),
            }
        } else if is_company {
            match parse_i32(id) {
                Some(v) => {
                    let ghost before = self.companies@;
                    self.companies.push(CompanyId::new(v));
                    proof {
                        assert(id_views(self.companies@) =~= id_views(before).push(
                            spec_parse_i32(id@)->0,
                        ));
                    }
                    Ok(())
                },
                None => Err(ZenMoneyError::InvalidDeletionId(id.to_owned())),
            }
        } else if is_country {
            match parse_i32(id) {
                Some(v) => {
                    let ghost before = self.countries@;
                    self.countries.push(v);
                    proof {
                        assert(id_views(self.countries@) =~= id_views(before).push(
                            spec_parse_i32(id@)->0,
                        ));
                    }
                    Ok(())
                },
                None => Err(ZenMoneyError::InvalidDeletionId(id.to_owned())),
            }
        } else if is_user {
            match parse_i64(id) {
                Some(v) => {
                    let ghost before = self.users@;
                    self.users.push(UserId::new(v));
                    proof {
                        assert(id_views(self.users@) =~= id_views(before).push(
                            spec_parse_i64(id@)->0,
                        ));
                    }
                    Ok(())
                },
                None => Err(ZenMoneyError::InvalidDeletionId(id.to_owned())),
            }
        } else if is_reminder {
            let ghost before = self.reminders@;
            self.reminders.push(ReminderId::new(id.to_owned()));
            proof {
                assert(id_views(self.reminders@) =~= id_views(before).push(id@));
            }
            Ok(())
        } else if is_reminder_marker {
            let ghost before = self.reminder_markers@;
            self.reminder_markers.push(ReminderMarkerId::new(id.to_owned()));
            proof {
                assert(id_views(self.reminder_markers@) =~= id_views(before).push(id@));
            }
            Ok(())
        } else {
            // An unrecognized entity type tag is tolerated and skipped: the
            // remote protocol may introduce kinds this client does not model.
            Ok(())
        }
    }

    /// Classifies the whole notice batch, all-or-nothing: a parse failure on
    /// any recognized numeric-keyed notice fails the call and no partial
    /// classification escapes.
    pub fn route(deletions: &Vec<Deletion>) -> (r: Result<GroupedDeletions>)
        ensures
            (r is Ok) <==> route_ok(deletions@),
            r is Err ==> r->Err_0 is InvalidDeletionId,
            r is Ok ==> r->Ok_0.routed(deletions@),
    {
        let ghost ds = deletions@;
        let mut groups = GroupedDeletions::new();
        proof {
            reveal_with_fuel(Seq::filter, 2);
            assert(ds.take(0) =~= Seq::<Deletion>::empty());
            assert(id_views(groups.accounts@) =~= string_bucket(ds.take(0), "account"@));
            assert(id_views(groups.transactions@) =~= string_bucket(ds.take(0), "transaction"@));
            assert(id_views(groups.tags@) =~= string_bucket(ds.take(0), "tag"@));
            assert(id_views(groups.merchants@) =~= string_bucket(ds.take(0), "merchant"@));
            assert(id_views(groups.instruments@) =~= i32_bucket(ds.take(0), "instrument"@));
            assert(id_views(groups.companies@) =~= i32_bucket(ds.take(0), "company"@));
            assert(id_views(groups.countries@) =~= i32_bucket(ds.take(0), "country"@));
            assert(id_views(groups.users@) =~= i64_bucket(ds.take(0), "user"@));
            assert(id_views(groups.reminders@) =~= string_bucket(ds.take(0), "reminder"@));
            assert(id_views(groups.reminder_markers@) =~= string_bucket(
                ds.take(0),
                "reminderMarker"@,
            ));
        }
        let mut idx: usize = 0;
        while idx < deletions.len()
            invariant
                ds == deletions@,
                idx <= ds.len(),
                route_ok(ds.take(idx as int)),
                groups.routed(ds.take(idx as int)),
            decreases ds.len() - idx,
        {
            let d = &deletions[idx];
            match groups.push_deletion(d.object.as_str(), d.id.as_str()) {
                Ok(()) => {},
                Err(e) => {
                    proof {
                        assert(!notice_parses(ds[idx as int].object@, ds[idx as int].id@));
                    }
                    return Err(e);
                },
            }
            proof {
                lemma_string_bucket_step(ds, idx as int, "account"@);
                lemma_string_bucket_step(ds, idx as int, "transaction"@);
                lemma_string_bucket_step(ds, idx as int, "tag"@);
                lemma_string_bucket_step(ds, idx as int, "merchant"@);
                lemma_i32_bucket_step(ds, idx as int, "instrument"@);
                lemma_i32_bucket_step(ds, idx as int, "company"@);
                lemma_i32_bucket_step(ds, idx as int, "country"@);
                lemma_i64_bucket_step(ds, idx as int, "user"@);
                lemma_string_bucket_step(ds, idx as int, "reminder"@);
                lemma_string_bucket_step(ds, idx as int, "reminderMarker"@);
                assert(route_ok(ds.take(idx as int + 1))) by {
                    assert forall|j: int| 0 <= j < idx as int + 1 implies notice_parses(
                        (#[trigger] ds.take(idx as int + 1)[j]).object@,
                        ds.take(idx as int + 1)[j].id@,
                    ) by {
                        if j < idx as int {
                            assert(ds.take(idx as int)[j] == ds[j]);
                        }
                    }
                }
            }
            idx += 1;
        }
        proof {
            assert(ds.take(ds.len() as int) =~= ds);
        }
        Ok(groups)
    }

    /// Classifies the deletion notices of a whole diff response.
    pub fn from_response(response: &DiffResponse) -> (r: Result<GroupedDeletions>)
        ensures
            (r is Ok) <==> route_ok(response.deletion@),
            r is Err ==> r->Err_0 is InvalidDeletionId,
            r is Ok ==> r->Ok_0.routed(response.deletion@),
    {
        GroupedDeletions::route(&response.deletion)
    }
}

/// One entity kind after a full diff application: the batch merged in by
/// key, then the routed keys removed.
pub open spec fn kind_applied<T: Keyed>(
    pre: Seq<T>,
    post: Seq<T>,
    batch: Seq<T>,
    removed: Set<<T::Key as View>::V>,
) -> bool {
    map_of(post) == upsert_model(map_of(pre), batch).remove_keys(removed)
}

/// One entity kind after the upsert phase alone.
pub open spec fn kind_upserted<T: Keyed>(pre: Seq<T>, post: Seq<T>, batch: Seq<T>) -> bool {
    map_of(post) == upsert_model(map_of(pre), batch)
}

/// Every kind's batch merged in, nothing removed, checkpoint untouched:
/// the state a failed deletion routing leaves behind.
pub open spec fn upserts_applied(
    pre: InMemoryStorage,
    post: InMemoryStorage,
    r: DiffResponse,
) -> bool {
    &&& kind_upserted(pre.accounts@, post.accounts@, r.account@)
    &&& kind_upserted(pre.transactions@, post.transactions@, r.transaction@)
    &&& kind_upserted(pre.tags@, post.tags@, r.tag@)
    &&& kind_upserted(pre.merchants@, post.merchants@, r.merchant@)
    &&& kind_upserted(pre.instruments@, post.instruments@, r.instrument@)
    &&& kind_upserted(pre.companies@, post.companies@, r.company@)
    &&& kind_upserted(pre.countries@, post.countries@, r.country@)
    &&& kind_upserted(pre.users@, post.users@, r.user@)
    &&& kind_upserted(pre.reminders@, post.reminders@, r.reminder@)
    &&& kind_upserted(pre.reminder_markers@, post.reminder_markers@, r.reminder_marker@)
    &&& kind_upserted(pre.budgets@, post.budgets@, r.budget@)
}

/// The whole diff response applied: per kind, upserts then the routed
/// deletions; budgets see no deletions; the checkpoint advanced to the
/// response's.
pub open spec fn diff_applied(
    pre: InMemoryStorage,
    post: InMemoryStorage,
    r: DiffResponse,
) -> bool {
    &&& kind_applied(
        pre.accounts@,
        post.accounts@,
        r.account@,
        string_bucket(r.deletion@, "account"@).to_set(),
    )
    &&& kind_applied(
        pre.transactions@,
        post.transactions@,
        r.transaction@,
        string_bucket(r.deletion@, "transaction"@).to_set(),
    )
    &&& kind_applied(
        pre.tags@,
        post.tags@,
        r.tag@,
        string_bucket(r.deletion@, "tag"@).to_set(),
    )
    &&& kind_applied(
        pre.merchants@,
        post.merchants@,
        r.merchant@,
        string_bucket(r.deletion@, "merchant"@).to_set(),
    )
    &&& kind_applied(
        pre.instruments@,
        post.instruments@,
        r.instrument@,
        i32_bucket(r.deletion@, "instrument"@).to_set(),
    )
    &&& kind_applied(
        pre.companies@,
        post.companies@,
        r.company@,
        i32_bucket(r.deletion@, "company"@).to_set(),
    )
    &&& kind_applied(
        pre.countries@,
        post.countries@,
        r.country@,
        i32_bucket(r.deletion@, "country"@).to_set(),
    )
    &&& kind_applied(
        pre.users@,
        post.users@,
        r.user@,
        i64_bucket(r.deletion@, "user"@).to_set(),
    )
    &&& kind_applied(
        pre.reminders@,
        post.reminders@,
        r.reminder@,
        string_bucket(r.deletion@, "reminder"@).to_set(),
    )
    &&& kind_applied(
        pre.reminder_markers@,
        post.reminder_markers@,
        r.reminder_marker@,
        string_bucket(r.deletion@, "reminderMarker"@).to_set(),
    )
    &&& kind_upserted(pre.budgets@, post.budgets@, r.budget@)
    &&& post.checkpoint() == Some(r.server_timestamp)
}

/// Applies a diff response to the store in the required order: (1) merge
/// every kind's upsert batch; (2) route the deletion notices and remove the
/// classified keys; (3) advance the checkpoint to the response's.
///
/// A routing failure aborts the call after the upserts, without removing
/// anything and without advancing the checkpoint, so a retried sync resumes
/// from the old checkpoint.
pub fn apply_diff(store: &mut InMemoryStorage, response: DiffResponse) -> (r: Result<()>)
    requires
        old(store).wf(),
    ensures
        final(store).wf(),
        (r is Ok) <==> route_ok(response.deletion@),
        r is Ok ==> diff_applied(*old(store), *final(store), response),
        r is Err ==> {
            &&& r->Err_0 is InvalidDeletionId
            &&& upserts_applied(*old(store), *final(store), response)
            &&& final(store).checkpoint() == old(store).checkpoint()
        },
{
    let DiffResponse {
        server_timestamp,
        instrument,
        company,
        user,
        account,
        tag,
        merchant,
        transaction,
        country,
        reminder,
        reminder_marker,
        budget,
        deletion,
    } = response;
    store.accounts.merge_upsert(account);
    store.transactions.merge_upsert(transaction);
    store.tags.merge_upsert(tag);
    store.merchants.merge_upsert(merchant);
    store.instruments.merge_upsert(instrument);
    store.companies.merge_upsert(company);
    store.countries.merge_upsert(country);
    store.users.merge_upsert(user);
    store.reminders.merge_upsert(reminder);
    store.reminder_markers.merge_upsert(reminder_marker);
    store.budgets.merge_upsert(budget);
    let groups = match GroupedDeletions::route(&deletion) {
        Ok(g) => g,
        Err(e) => {
            return Err(e);
        },
    };
    store.accounts.remove(&groups.accounts);
    store.transactions.remove(&groups.transactions);
    store.tags.remove(&groups.tags);
    store.merchants.remove(&groups.merchants);
    store.instruments.remove(&groups.instruments);
    store.companies.remove(&groups.companies);
    store.countries.remove(&groups.countries);
    store.users.remove(&groups.users);
    store.reminders.remove(&groups.reminders);
    store.reminder_markers.remove(&groups.reminder_markers);
    store.set_server_timestamp(server_timestamp);
    proof {
        lemma_key_view_set_is_to_set(groups.accounts@);
        lemma_key_view_set_is_to_set(groups.transactions@);
        lemma_key_view_set_is_to_set(groups.tags@);
        lemma_key_view_set_is_to_set(groups.merchants@);
        lemma_key_view_set_is_to_set(groups.instruments@);
        lemma_key_view_set_is_to_set(groups.companies@);
        lemma_key_view_set_is_to_set(groups.countries@);
        lemma_key_view_set_is_to_set(groups.users@);
        lemma_key_view_set_is_to_set(groups.reminders@);
        lemma_key_view_set_is_to_set(groups.reminder_markers@);
    }
    Ok(())
}

/// Every collection emptied and the checkpoint reset, then the fresh
/// response applied: the state a full resync leaves behind.
pub open spec fn full_sync_applied(post: InMemoryStorage, r: DiffResponse) -> bool {
    exists|cleared: InMemoryStorage|
        (#[trigger] cleared.is_empty()) && cleared.wf() && diff_applied(cleared, post, r)
}

/// Performs the local half of a full resync: clears the store, then applies
/// the response of a from-the-beginning diff exchange.
pub fn apply_full_sync(store: &mut InMemoryStorage, response: DiffResponse) -> (r: Result<()>)
    requires
        old(store).wf(),
    ensures
        final(store).wf(),
        (r is Ok) <==> route_ok(response.deletion@),
        r is Ok ==> full_sync_applied(*final(store), response),
        r is Err ==> final(store).checkpoint() is None,
{
    store.clear();
    let ghost cleared = *store;
    let result = apply_diff(store, response);
    proof {
        if result is Ok {
            assert(cleared.is_empty() && cleared.wf() && diff_applied(
                cleared,
                *store,
                response,
            ));
        }
    }
    result
}

/// Relies on `chrono::Utc::now`: the current wall-clock time as Unix
/// seconds. Nothing is promised of the value, which depends on the clock.
#[verifier::external_body]
fn current_unix_time() -> i64 {
    chrono::Utc::now().timestamp()
}

/// Builds the read-only diff request an incremental sync sends: the stored
/// checkpoint (absent means the beginning of time, sent as 0) plus the
/// current local clock time, with every batch empty.
pub fn base_diff_request(checkpoint: Option<i64>) -> (r: DiffRequest)
    ensures
        r.server_timestamp == (match checkpoint {
            Some(t) => t,
            None => 0i64,
        }),
        r.force_fetch@.len() == 0,
        r.account@.len() == 0,
        r.tag@.len() == 0,
        r.merchant@.len() == 0,
        r.transaction@.len() == 0,
        r.reminder@.len() == 0,
        r.reminder_marker@.len() == 0,
        r.budget@.len() == 0,
        r.deletion@.len() == 0,
{
    let since = match checkpoint {
        Some(t) => t,
        None => 0,
    };
    let now = current_unix_time();
    DiffRequest::sync_only(since, now)
}

/// Builds the deletion notices a local delete flow sends: one notice per
/// key, all carrying the given entity type tag, timestamp and acting user.
pub fn build_deletions(ids: &Vec<String>, object: &str, stamp: i64, user: i64) -> (r: Vec<
    Deletion,
>)
    ensures
        r@.len() == ids@.len(),
        forall|i: int|
            0 <= i < r@.len() ==> {
                &&& (#[trigger] r@[i]).id@ == ids@[i]@
                &&& r@[i].object@ == object@
                &&& r@[i].stamp == stamp
                &&& r@[i].user == user
            },
{
    let mut out: Vec<Deletion> = Vec::new();
    let mut i: usize = 0;
    while i < ids.len()
        invariant
            i <= ids@.len(),
            out@.len() == i,
            forall|k: int|
                0 <= k < i ==> {
                    &&& (#[trigger] out@[k]).id@ == ids@[k]@
                    &&& out@[k].object@ == object@
                    &&& out@[k].stamp == stamp
                    &&& out@[k].user == user
                },
        decreases ids@.len() - i,
    {
        out.push(
            Deletion { id: ids[i].clone(), object: object.to_owned(), stamp, user },
        );
        i += 1;
    }
    out
}

/// The key of the first stored user, or 0 when no users have been synced
/// yet: the acting-user key a local delete flow stamps its notices with.
pub fn first_user_id(users: &Vec<crate::models::User>) -> (r: i64)
    ensures
        users@.len() == 0 ==> r == 0,
        users@.len() > 0 ==> r == users@[0].id@,
{
    if users.len() == 0 {
        0
    } else {
        users[0].id.into_inner()
    }
}

} // verus!
