//! The client handle and the request of every operation of the service.
//!
//! The handle does no input or output: each operation yields the address to
//! fetch, and the module `exchange` says what the answer amounts to.

use vstd::prelude::*;
use crate::decimal::{decimal_text, format_u128, format_u64};
use crate::error::ConfigurationError;

verus! {

/// The address that every request starts with.
pub const BASE_URL: &'static str = "https://api.etherscan.io/api";

/// The name of the environment variable that holds the token.
pub const ETHERSCANIO_API_TOKEN: &'static str = "ETHERSCANIO_API_TOKEN";

/// The client handle: the token that every request carries.
pub struct API {
    api_token: String,
}

impl View for API {
    type V = Seq<char>;

    /// The token.
    closed spec fn view(&self) -> Seq<char> {
        self.api_token@
    }
}

/// The range parameters of a query: none where the upper bound is 0, which
/// stands for "no range", else both bounds as they were given.
pub open spec fn block_range(from: u64, to: u64) -> Seq<char> {
    if to == 0 {
        Seq::<char>::empty()
    } else {
        "&startblock="@ + decimal_text(from as nat) + "&endblock="@ + decimal_text(to as nat)
    }
}

/// Writes the range parameters of a query.
pub fn parse_block_range(from: u64, to: u64) -> (s: String)
    ensures
        s@ == block_range(from, to),
{
    if to == 0 {
        return String::new();
    }
    let mut s = "&startblock=".to_owned();
    let from_text = format_u64(from);
    s.append(from_text.as_str());
    s.append("&endblock=");
    let to_text = format_u64(to);
    s.append(to_text.as_str());
    s
}

/// The address of a query that names no value.
fn query(head: &str, token: &str) -> (uri: String)
    ensures
        uri@ == BASE_URL@ + head@ + token@,
{
    let mut uri = BASE_URL.to_owned();
    uri.append(head);
    uri.append(token);
    uri
}

/// The address of a query that names one value.
fn query_with(head: &str, a: &str, tail: &str, token: &str) -> (uri: String)
    ensures
        uri@ == BASE_URL@ + head@ + a@ + tail@ + token@,
{
    let mut uri = BASE_URL.to_owned();
    uri.append(head);
    uri.append(a);
    uri.append(tail);
    uri.append(token);
    uri
}

/// The address of a query that names two values.
fn query_with_two(
    head: &str,
    a: &str,
    middle: &str,
    b: &str,
    tail: &str,
    token: &str,
) -> (uri: String)
    ensures
        uri@ == BASE_URL@ + head@ + a@ + middle@ + b@ + tail@ + token@,
{
    let mut uri = BASE_URL.to_owned();
    uri.append(head);
    uri.append(a);
    uri.append(middle);
    uri.append(b);
    uri.append(tail);
    uri.append(token);
    uri
}

/// The address of a query that names one value and a range of blocks.
fn query_with_range(
    head: &str,
    a: &str,
    from: u64,
    to: u64,
    tail: &str,
    token: &str,
) -> (uri: String)
    ensures
        uri@ == BASE_URL@ + head@ + a@ + block_range(from, to) + tail@ + token@,
{
    let range = parse_block_range(from, to);
    let mut uri = BASE_URL.to_owned();
    uri.append(head);
    uri.append(a);
    uri.append(range.as_str());
    uri.append(tail);
    uri.append(token);
    uri
}

impl API {
    /// A handle with the given token.
    pub fn new(api_token: &str) -> (api: API)
        ensures
            api@ == api_token@,
    {
        API { api_token: api_token.to_owned() }
    }

    /// A handle with the token that the environment holds under
    /// `ETHERSCANIO_API_TOKEN`. The caller looks the variable up and hands in
    /// what it found; without a value there is no handle.
    pub fn new_from_env(value: Option<String>) -> (r: Result<API, ConfigurationError>)
        ensures
            match value {
                Some(token) => r is Ok && r->Ok_0@ == token@,
                None => r == Err::<API, ConfigurationError>(ConfigurationError::MissingToken),
            },
    {
        match value {
            Some(token) => Ok(API { api_token: token }),
            None => Err(ConfigurationError::MissingToken),
        }
    }

    /// The token of the handle.
    pub fn api_token(&self) -> (token: &str)
        ensures
            token@ == self@,
    {
        self.api_token.as_str()
    }

    /// The address of the request for the balance of an account.
    pub open spec fn acc_balance_uri(token: Seq<char>, account_addr: Seq<char>) -> Seq<char> {
        BASE_URL@ + "/?module=account&action=balance&address="@ + account_addr
            + "&tag=latest&apikey="@ + token
    }

    /// The request for the balance of an account.
    pub fn acc_balance(&self, account_addr: &str) -> (uri: String)
        ensures
            uri@ == API::acc_balance_uri(self@, account_addr@),
    {
        query_with(
            "/?module=account&action=balance&address=",
            account_addr,
            "&tag=latest&apikey=",
            self.api_token.as_str(),
        )
    }

    /// The address of the request for the time that a transaction with the given
    /// gas price waits for its confirmation.
    pub open spec fn estimate_conf_time_for_gas_uri(token: Seq<char>, gas: u128) -> Seq<char> {
        BASE_URL@ + "?module=gastracker&action=gasestimate&gasprice="@ + decimal_text(gas as nat)
            + "&apikey="@ + token
    }

    /// The request for the time that a transaction with the given gas price waits
    /// for its confirmation.
    pub fn estimate_conf_time_for_gas(&self, gas: u128) -> (uri: String)
        ensures
            uri@ == API::estimate_conf_time_for_gas_uri(self@, gas),
    {
        let price = format_u128(gas);
        query_with(
            "?module=gastracker&action=gasestimate&gasprice=",
            price.as_str(),
            "&apikey=",
            self.api_token.as_str(),
        )
    }

    /// The address of the request for the gas price oracle.
    pub open spec fn gas_oracle_uri(token: Seq<char>) -> Seq<char> {
        BASE_URL@ + "?module=gastracker&action=gasoracle&apikey="@ + token
    }

    /// The request for the gas price oracle.
    pub fn gas_oracle(&self) -> (uri: String)
        ensures
            uri@ == API::gas_oracle_uri(self@),
    {
        query("?module=gastracker&action=gasoracle&apikey=", self.api_token.as_str())
    }

    /// The address of the request for the price of ether.
    pub open spec fn eth_price_uri(token: Seq<char>) -> Seq<char> {
        BASE_URL@ + "?module=stats&action=ethprice&apikey="@ + token
    }

    /// The request for the price of ether.
    pub fn eth_price(&self) -> (uri: String)
        ensures
            uri@ == API::eth_price_uri(self@),
    {
        query("?module=stats&action=ethprice&apikey=", self.api_token.as_str())
    }

    /// The address of the request for the total supply of a token.
    pub open spec fn erc20_token_total_supply_uri(
        token: Seq<char>,
        token_contract_addr: Seq<char>,
    ) -> Seq<char> {
        BASE_URL@ + "?module=stats&action=tokensupply&contractaddress="@ + token_contract_addr
            + "&apikey="@ + token
    }

    /// The request for the total supply of a token.
    pub fn erc20_token_total_supply(&self, token_contract_addr: &str) -> (uri: String)
        ensures
            uri@ == API::erc20_token_total_supply_uri(self@, token_contract_addr@),
    {
        query_with(
            "?module=stats&action=tokensupply&contractaddress=",
            token_contract_addr,
            "&apikey=",
            self.api_token.as_str(),
        )
    }

    /// The address of the request for the balance that an account holds of a
    /// token.
    pub open spec fn erc20_token_balance_on_account_uri(
        token: Seq<char>,
        account_addr: Seq<char>,
        token_contract_addr: Seq<char>,
    ) -> Seq<char> {
        BASE_URL@ + "?module=account&action=tokenbalance&contractaddress="@ + token_contract_addr
            + "&address="@ + account_addr + "&tag=latest&apikey="@ + token
    }

    /// The request for the balance that an account holds of a token.
    pub fn erc20_token_balance_on_account(
        &self,
        account_addr: &str,
        token_contract_addr: &str,
    ) -> (uri: String)
        ensures
            uri@ == API::erc20_token_balance_on_account_uri(
                self@,
                account_addr@,
                token_contract_addr@,
            ),
    {
        query_with_two(
            "?module=account&action=tokenbalance&contractaddress=",
            token_contract_addr,
            "&address=",
            account_addr,
            "&tag=latest&apikey=",
            self.api_token.as_str(),
        )
    }

    /// The address of the request for the transactions of an account within a
    /// range of blocks, oldest first.
    pub open spec fn txs_on_account_from_to_uri(
        token: Seq<char>,
        account_addr: Seq<char>,
        from_block: u64,
        end_block: u64,
    ) -> Seq<char> {
        BASE_URL@ + "?module=account&action=txlist&address="@ + account_addr
            + block_range(from_block, end_block) + "&sort=asc&apikey="@ + token
    }

    /// The request for the transactions of an account within a range of blocks,
    /// oldest first.
    pub fn txs_on_account_from_to(
        &self,
        account_addr: &str,
        from_block: u64,
        end_block: u64,
    ) -> (uri: String)
        ensures
            uri@ == API::txs_on_account_from_to_uri(self@, account_addr@, from_block, end_block),
    {
        query_with_range(
            "?module=account&action=txlist&address=",
            account_addr,
            from_block,
            end_block,
            "&sort=asc&apikey=",
            self.api_token.as_str(),
        )
    }

    /// The request for all transactions of an account, oldest first.
    pub fn txs_on_account(&self, account_addr: &str) -> (uri: String)
        ensures
            uri@ == API::txs_on_account_from_to_uri(self@, account_addr@, 0, 0),
    {
        self.txs_on_account_from_to(account_addr, 0, 0)
    }

    /// The address of the request for the internal transactions of an account
    /// within a range of blocks, oldest first.
    pub open spec fn internal_txs_on_account_from_to_uri(
        token: Seq<char>,
        account_addr: Seq<char>,
        from_block: u64,
        end_block: u64,
    ) -> Seq<char> {
        BASE_URL@ + "?module=account&action=txlistinternal&address="@ + account_addr
            + block_range(from_block, end_block) + "&sort=asc&apikey="@ + token
    }

    /// The request for the internal transactions of an account within a range of
    /// blocks, oldest first.
    pub fn internal_txs_on_account_from_to(
        &self,
        account_addr: &str,
        from_block: u64,
        end_block: u64,
    ) -> (uri: String)
        ensures
            uri@ == API::internal_txs_on_account_from_to_uri(
                self@,
                account_addr@,
                from_block,
                end_block,
            ),
    {
        query_with_range(
            "?module=account&action=txlistinternal&address=",
            account_addr,
            from_block,
            end_block,
            "&sort=asc&apikey=",
            self.api_token.as_str(),
        )
    }

    /// The request for all internal transactions of an account, oldest first.
    pub fn internal_txs_on_account(&self, addr: &str) -> (uri: String)
        ensures
            uri@ == API::internal_txs_on_account_from_to_uri(self@, addr@, 0, 0),
    {
        self.internal_txs_on_account_from_to(addr, 0, 0)
    }

    /// The address of the request for the first ten internal transactions within
    /// a range of blocks, oldest first.
    pub open spec fn internal_txs_from_to_uri(
        token: Seq<char>,
        from_block: u64,
        end_block: u64,
    ) -> Seq<char> {
        BASE_URL@ + "?module=account&action=txlistinternal"@ + block_range(from_block, end_block)
            + "&page=1&offset=10&sort=asc&apikey="@ + token
    }

    /// The request for the first ten internal transactions within a range of
    /// blocks, oldest first.
    pub fn internal_txs_from_to(&self, from_block: u64, end_block: u64) -> (uri: String)
        ensures
            uri@ == API::internal_txs_from_to_uri(self@, from_block, end_block),
    {
        let range = parse_block_range(from_block, end_block);
        query_with(
            "?module=account&action=txlistinternal",
            range.as_str(),
            "&page=1&offset=10&sort=asc&apikey=",
            self.api_token.as_str(),
        )
    }

    /// The address of the request for the internal transactions of one
    /// transaction.
    pub open spec fn internal_txs_by_tx_hash_uri(
        token: Seq<char>,
        tx_hash: Seq<char>,
    ) -> Seq<char> {
        BASE_URL@ + "?module=account&action=txlistinternal&txhash="@ + tx_hash + "&apikey="@ + token
    }

    /// The request for the internal transactions of one transaction.
    pub fn internal_txs_by_tx_hash(&self, tx_hash: &str) -> (uri: String)
        ensures
            uri@ == API::internal_txs_by_tx_hash_uri(self@, tx_hash@),
    {
        query_with(
            "?module=account&action=txlistinternal&txhash=",
            tx_hash,
            "&apikey=",
            self.api_token.as_str(),
        )
    }

    /// The address of the request for the token transfers of an account within a
    /// range of blocks, oldest first.
    pub open spec fn erc20_transfers_on_account_from_to_uri(
        token: Seq<char>,
        account_addr: Seq<char>,
        from_block: u64,
        end_block: u64,
    ) -> Seq<char> {
        BASE_URL@ + "?module=account&action=tokentx&address="@ + account_addr
            + block_range(from_block, end_block) + "&sort=asc&apikey="@ + token
    }

    /// The request for the token transfers of an account within a range of
    /// blocks, oldest first.
    pub fn erc20_transfers_on_account_from_to(
        &self,
        account_addr: &str,
        from_block: u64,
        end_block: u64,
    ) -> (uri: String)
        ensures
            uri@ == API::erc20_transfers_on_account_from_to_uri(
                self@,
                account_addr@,
                from_block,
                end_block,
            ),
    {
        query_with_range(
            "?module=account&action=tokentx&address=",
            account_addr,
            from_block,
            end_block,
            "&sort=asc&apikey=",
            self.api_token.as_str(),
        )
    }

    /// The request for all token transfers of an account, oldest first.
    pub fn erc20_transfer_events_on_account(&self, account_addr: &str) -> (uri: String)
        ensures
            uri@ == API::erc20_transfers_on_account_from_to_uri(self@, account_addr@, 0, 0),
    {
        self.erc20_transfers_on_account_from_to(account_addr, 0, 0)
    }

    /// The address of the request for the transfers of one token on an account,
    /// oldest first.
    pub open spec fn erc20_transfers_on_account_by_contract_uri(
        token: Seq<char>,
        account_addr: Seq<char>,
        token_contract_addr: Seq<char>,
    ) -> Seq<char> {
        BASE_URL@ + "?module=account&action=tokentx&contractaddress="@ + token_contract_addr
            + "&address="@ + account_addr + "&sort=asc&apikey="@ + token
    }

    /// The request for the transfers of one token on an account, oldest first.
    pub fn erc20_transfers_on_account_by_contract(
        &self,
        account_addr: &str,
        token_contract_addr: &str,
    ) -> (uri: String)
        ensures
            uri@ == API::erc20_transfers_on_account_by_contract_uri(
                self@,
                account_addr@,
                token_contract_addr@,
            ),
    {
        query_with_two(
            "?module=account&action=tokentx&contractaddress=",
            token_contract_addr,
            "&address=",
            account_addr,
            "&sort=asc&apikey=",
            self.api_token.as_str(),
        )
    }

    /// The address of the request for the transfers of non-fungible tokens of an
    /// account within a range of blocks, oldest first.
    pub open spec fn erc271_transfers_on_account_from_to_uri(
        token: Seq<char>,
        account_addr: Seq<char>,
        from_block: u64,
        end_block: u64,
    ) -> Seq<char> {
        BASE_URL@ + "?module=account&action=tokennfttx&address="@ + account_addr
            + block_range(from_block, end_block) + "&sort=asc&apikey="@ + token
    }

    /// The request for the transfers of non-fungible tokens of an account within
    /// a range of blocks, oldest first.
    pub fn erc271_transfers_on_account_from_to(
        &self,
        account_addr: &str,
        from_block: u64,
        end_block: u64,
    ) -> (uri: String)
        ensures
            uri@ == API::erc271_transfers_on_account_from_to_uri(
                self@,
                account_addr@,
                from_block,
                end_block,
            ),
    {
        query_with_range(
            "?module=account&action=tokennfttx&address=",
            account_addr,
            from_block,
            end_block,
            "&sort=asc&apikey=",
            self.api_token.as_str(),
        )
    }

    /// The request for all transfers of non-fungible tokens of an account, oldest
    /// first.
    pub fn erc271_transfers_on_account(&self, account_addr: &str) -> (uri: String)
        ensures
            uri@ == API::erc271_transfers_on_account_from_to_uri(self@, account_addr@, 0, 0),
    {
        self.erc271_transfers_on_account_from_to(account_addr, 0, 0)
    }

    /// The address of the request for the transfers of one non-fungible token on
    /// an account, oldest first.
    pub open spec fn erc271_transfers_on_account_by_contract_uri(
        token: Seq<char>,
        account_addr: Seq<char>,
        token_contract_addr: Seq<char>,
    ) -> Seq<char> {
        BASE_URL@ + "?module=account&action=tokennfttx&contractaddress="@ + token_contract_addr
            + "&address="@ + account_addr + "&sort=asc&apikey="@ + token
    }

    /// The request for the transfers of one non-fungible token on an account,
    /// oldest first.
    pub fn erc271_transfers_on_account_by_contract(
        &self,
        account_addr: &str,
        token_contract_addr: &str,
    ) -> (uri: String)
        ensures
            uri@ == API::erc271_transfers_on_account_by_contract_uri(
                self@,
                account_addr@,
                token_contract_addr@,
            ),
    {
        query_with_two(
            "?module=account&action=tokennfttx&contractaddress=",
            token_contract_addr,
            "&address=",
            account_addr,
            "&sort=asc&apikey=",
            self.api_token.as_str(),
        )
    }

    /// The address of the request for the blocks that an account mined.
    pub open spec fn mined_blocks_by_account_uri(
        token: Seq<char>,
        account_addr: Seq<char>,
    ) -> Seq<char> {
        BASE_URL@ + "?module=account&action=getminedblocks&address="@ + account_addr
            + "&blocktype=blocks&apikey="@ + token
    }

    /// The request for the blocks that an account mined.
    pub fn mined_blocks_by_account(&self, account_addr: &str) -> (uri: String)
        ensures
            uri@ == API::mined_blocks_by_account_uri(self@, account_addr@),
    {
        query_with(
            "?module=account&action=getminedblocks&address=",
            account_addr,
            "&blocktype=blocks&apikey=",
            self.api_token.as_str(),
        )
    }

    /// The address of the request for the execution status of a contract call.
    pub open spec fn contract_execution_status_uri(
        token: Seq<char>,
        tx_hash: Seq<char>,
    ) -> Seq<char> {
        BASE_URL@ + "?module=transaction&action=getstatus&txhash="@ + tx_hash + "&apikey="@ + token
    }

    /// The request for the execution status of a contract call.
    pub fn contract_execution_status(&self, tx_hash: &str) -> (uri: String)
        ensures
            uri@ == API::contract_execution_status_uri(self@, tx_hash@),
    {
        query_with(
            "?module=transaction&action=getstatus&txhash=",
            tx_hash,
            "&apikey=",
            self.api_token.as_str(),
        )
    }

    /// The address of the request for the receipt status of a transaction.
    pub open spec fn tx_receipt_status_uri(token: Seq<char>, tx_hash: Seq<char>) -> Seq<char> {
        BASE_URL@ + "?module=transaction&action=gettxreceiptstatus&txhash="@ + tx_hash + "&apikey="@
            + token
    }

    /// The request for the receipt status of a transaction.
    pub fn tx_receipt_status(&self, tx_hash: &str) -> (uri: String)
        ensures
            uri@ == API::tx_receipt_status_uri(self@, tx_hash@),
    {
        query_with(
            "?module=transaction&action=gettxreceiptstatus&txhash=",
            tx_hash,
            "&apikey=",
            self.api_token.as_str(),
        )
    }
}

/// With an upper bound of 0 a query holds no range parameters, whatever the
/// lower bound is.
pub proof fn lemma_zero_upper_bound_omits_range(
    token: Seq<char>,
    account_addr: Seq<char>,
    from_block: u64,
)
    ensures
        block_range(from_block, 0) == Seq::<char>::empty(),
        API::txs_on_account_from_to_uri(token, account_addr, from_block, 0) == BASE_URL@
            + "?module=account&action=txlist&address="@ + account_addr + "&sort=asc&apikey="@
            + token,
        API::internal_txs_on_account_from_to_uri(token, account_addr, from_block, 0) == BASE_URL@
            + "?module=account&action=txlistinternal&address="@ + account_addr
            + "&sort=asc&apikey="@ + token,
        API::internal_txs_from_to_uri(token, from_block, 0) == BASE_URL@
            + "?module=account&action=txlistinternal"@ + "&page=1&offset=10&sort=asc&apikey="@
            + token,
        API::erc20_transfers_on_account_from_to_uri(token, account_addr, from_block, 0)
            == BASE_URL@ + "?module=account&action=tokentx&address="@ + account_addr
            + "&sort=asc&apikey="@ + token,
        API::erc271_transfers_on_account_from_to_uri(token, account_addr, from_block, 0)
            == BASE_URL@ + "?module=account&action=tokennfttx&address="@ + account_addr
            + "&sort=asc&apikey="@ + token,
{
    let none = Seq::<char>::empty();
    let txs = BASE_URL@ + "?module=account&action=txlist&address="@ + account_addr;
    assert(txs + none =~= txs);
    let internal = BASE_URL@ + "?module=account&action=txlistinternal&address="@ + account_addr;
    assert(internal + none =~= internal);
    let by_range = BASE_URL@ + "?module=account&action=txlistinternal"@;
    assert(by_range + none =~= by_range);
    let erc20 = BASE_URL@ + "?module=account&action=tokentx&address="@ + account_addr;
    assert(erc20 + none =~= erc20);
    let erc721 = BASE_URL@ + "?module=account&action=tokennfttx&address="@ + account_addr;
    assert(erc721 + none =~= erc721);
}

/// With an upper bound above 0 a query holds both bounds, each as the decimal
/// text of the number that was given.
pub proof fn lemma_positive_upper_bound_names_both(
    token: Seq<char>,
    account_addr: Seq<char>,
    from_block: u64,
    end_block: u64,
)
    requires
        end_block > 0,
    ensures
        block_range(from_block, end_block) == "&startblock="@ + decimal_text(from_block as nat)
            + "&endblock="@ + decimal_text(end_block as nat),
        API::txs_on_account_from_to_uri(token, account_addr, from_block, end_block) == BASE_URL@
            + "?module=account&action=txlist&address="@ + account_addr + "&startblock="@
            + decimal_text(from_block as nat) + "&endblock="@ + decimal_text(end_block as nat)
            + "&sort=asc&apikey="@ + token,
        API::internal_txs_on_account_from_to_uri(token, account_addr, from_block, end_block)
            == BASE_URL@ + "?module=account&action=txlistinternal&address="@ + account_addr
            + "&startblock="@ + decimal_text(from_block as nat) + "&endblock="@ + decimal_text(
            end_block as nat,
        ) + "&sort=asc&apikey="@ + token,
        API::internal_txs_from_to_uri(token, from_block, end_block) == BASE_URL@
            + "?module=account&action=txlistinternal"@ + "&startblock="@ + decimal_text(
            from_block as nat,
        ) + "&endblock="@ + decimal_text(end_block as nat)
            + "&page=1&offset=10&sort=asc&apikey="@ + token,
        API::erc20_transfers_on_account_from_to_uri(token, account_addr, from_block, end_block)
            == BASE_URL@ + "?module=account&action=tokentx&address="@ + account_addr
            + "&startblock="@ + decimal_text(from_block as nat) + "&endblock="@ + decimal_text(
            end_block as nat,
        ) + "&sort=asc&apikey="@ + token,
        API::erc271_transfers_on_account_from_to_uri(token, account_addr, from_block, end_block)
            == BASE_URL@ + "?module=account&action=tokennfttx&address="@ + account_addr
            + "&startblock="@ + decimal_text(from_block as nat) + "&endblock="@ + decimal_text(
            end_block as nat,
        ) + "&sort=asc&apikey="@ + token,
{
    let from = decimal_text(from_block as nat);
    let to = decimal_text(end_block as nat);
    let range = "&startblock="@ + from + "&endblock="@ + to;
    let txs = BASE_URL@ + "?module=account&action=txlist&address="@ + account_addr;
    assert(txs + range =~= txs + "&startblock="@ + from + "&endblock="@ + to);
    let internal = BASE_URL@ + "?module=account&action=txlistinternal&address="@ + account_addr;
    assert(internal + range =~= internal + "&startblock="@ + from + "&endblock="@ + to);
    let by_range = BASE_URL@ + "?module=account&action=txlistinternal"@;
    assert(by_range + range =~= by_range + "&startblock="@ + from + "&endblock="@ + to);
    let erc20 = BASE_URL@ + "?module=account&action=tokentx&address="@ + account_addr;
    assert(erc20 + range =~= erc20 + "&startblock="@ + from + "&endblock="@ + to);
    let erc721 = BASE_URL@ + "?module=account&action=tokennfttx&address="@ + account_addr;
    assert(erc721 + range =~= erc721 + "&startblock="@ + from + "&endblock="@ + to);
}

} // verus!
