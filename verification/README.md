# card_router

The decision logic of a card routing and payment orchestration service,
written in Verus and proved against its contracts.

When a card authorization request arrives, the service registers the
transaction, holds the amount on the customer's passthrough card, charges one
card of the customer's wallet through the payment provider (and only one),
settles or releases the holds in the ledger, and answers the request.
Requests are authenticated with JWTs issued by an identity provider.

## Layout

- `src/` — the verified library:
  - `charge/`, `charge_engine/` — the charge flow: what is recorded and booked
    for every answer of the provider, the run through a wallet that stops at
    the first charged card, and the answer to the authorization request;
  - `adyen/`, `adyen_service/` — the provider's result codes and the payment,
    card-storing and cancel requests sent to it;
  - `asa/`, `asa_request/` — authorization requests and answers and their
    wire codes;
  - `auth/` — bearer tokens, permissions, issued claims, and the stages of
    reading a request's claims;
  - `category/`, `credit_card_type/` — spending categories, card products and
    the service answers built from stored rows;
  - `common/` — the transaction metadata read from a request;
  - `configuration/`, `environment.rs` — deployment environments and settings;
  - `api_error.rs`, `data_error.rs`, `error/`, `service_error.rs`,
    `error_type.rs` — failures and how they are answered;
  - `text.rs`, `foreign.rs` — verified string helpers, and the outside types
    and calls the library relies on, with the contracts it trusts.
- `tests/` — tests of the library on concrete values.
- `app/` — the unverified code around it: configuration loading, JSON wire
  forms, HTTP answers, the request extractor that drives the claims reading
  stages with the identity provider, and the drivers of the charge flow (over
  a store and a payment proxy) and of the charge engine (over a transaction
  ledger and the payment provider).
